//! Type descriptors of the schema and the target types they resolve to.

use crate::casing::{cased, member_style, Style};
use crate::json::{
    array_at, array_member, as_object, json_of, members_of, text_at, text_member, Json,
};
use crate::text::{join, joined, joined_first, same_text, text_of, texts};
use vstd::prelude::*;

verus! {

/// The primitive kinds of the schema.
pub enum Primitive {
    Text,
    Sint32,
    Bool,
    Float,
    Double,
}

/// A type descriptor of the schema.
pub enum TypeRef {
    Primitive(Primitive),
    /// A descriptor whose code is none of the known ones.
    Unknown,
    Tuple(Seq<TypeRef>),
    List(Box<TypeRef>),
    /// A class `name` of the service `service`.
    Class { service: Seq<char>, name: Seq<char> },
}

/// The target type that stands for a primitive kind.
pub open spec fn primitive_name(kind: Primitive) -> Seq<char> {
    match kind {
        Primitive::Text => "String"@,
        Primitive::Sint32 => "i32"@,
        Primitive::Bool => "bool"@,
        Primitive::Float => "f32"@,
        Primitive::Double => "f64"@,
    }
}

/// The target type expression of a type descriptor.
pub open spec fn resolve(ty: TypeRef) -> Seq<char>
    decreases ty, 0nat,
{
    match ty {
        TypeRef::Primitive(kind) => primitive_name(kind),
        TypeRef::Unknown => Seq::empty(),
        TypeRef::Tuple(items) => "("@ + joined(resolve_first(items, items.len()), ", "@) + ")"@,
        TypeRef::List(item) => "Vec<"@ + resolve(*item) + ">"@,
        TypeRef::Class { service, name } => "crate::services::"@ + cased(service, Style::Member)
            + "::"@ + name,
    }
}

/// The target type expressions of the first `n` of `items`, in order.
pub open spec fn resolve_first(items: Seq<TypeRef>, n: nat) -> Seq<Seq<char>>
    decreases items, n,
{
    if n == 0 || n > items.len() {
        Seq::empty()
    } else {
        resolve_first(items, (n - 1) as nat).push(resolve(items[n - 1]))
    }
}

/// The target type expression of a descriptor, where there is one.
pub open spec fn resolved(ty: Option<TypeRef>) -> Option<Seq<char>> {
    match ty {
        Some(ty) => Some(resolve(ty)),
        None => None,
    }
}

/// The descriptor that a JSON type object states, by its `code`. `None`
/// where a member that the code calls for is missing or of the wrong kind.
pub open spec fn type_ref(ty: Seq<(Seq<char>, Json)>) -> Option<TypeRef>
    decreases ty, 1nat,
{
    match text_member(ty, "code"@) {
        None => None,
        Some(code) => if code == "STRING"@ {
            Some(TypeRef::Primitive(Primitive::Text))
        } else if code == "SINT32"@ {
            Some(TypeRef::Primitive(Primitive::Sint32))
        } else if code == "BOOL"@ {
            Some(TypeRef::Primitive(Primitive::Bool))
        } else if code == "FLOAT"@ {
            Some(TypeRef::Primitive(Primitive::Float))
        } else if code == "DOUBLE"@ {
            Some(TypeRef::Primitive(Primitive::Double))
        } else if code == "TUPLE"@ {
            tuple_ref(ty)
        } else if code == "LIST"@ {
            list_ref(ty)
        } else if code == "CLASS"@ {
            class_ref(ty)
        } else {
            Some(TypeRef::Unknown)
        },
    }
}

/// The tuple of the descriptors under `types`, each of which is an object.
pub open spec fn tuple_ref(ty: Seq<(Seq<char>, Json)>) -> Option<TypeRef>
    decreases ty, 0nat,
{
    match array_member(ty, "types"@) {
        None => None,
        Some(items) => match type_refs(items, items.len()) {
            None => None,
            Some(refs) => Some(TypeRef::Tuple(refs)),
        },
    }
}

/// The list of the first descriptor under `types`; what follows it is not
/// read.
pub open spec fn list_ref(ty: Seq<(Seq<char>, Json)>) -> Option<TypeRef>
    decreases ty, 0nat,
{
    match array_member(ty, "types"@) {
        None => None,
        Some(items) => if items.len() == 0 {
            None
        } else {
            match items[0] {
                Json::Object(first) => match type_ref(first) {
                    None => None,
                    Some(item) => Some(TypeRef::List(Box::new(item))),
                },
                _ => None,
            }
        },
    }
}

/// The class named by the strings under `service` and `name`.
pub open spec fn class_ref(ty: Seq<(Seq<char>, Json)>) -> Option<TypeRef> {
    match (text_member(ty, "service"@), text_member(ty, "name"@)) {
        (Some(service), Some(name)) => Some(TypeRef::Class { service, name }),
        _ => None,
    }
}

/// The descriptors of the first `n` of `items`, in order. `None` where one
/// of them is no object or states no descriptor.
pub open spec fn type_refs(items: Seq<Json>, n: nat) -> Option<Seq<TypeRef>>
    decreases items, n,
{
    if n == 0 || n > items.len() {
        Some(Seq::empty())
    } else {
        match (type_refs(items, (n - 1) as nat), items[n - 1]) {
            (Some(refs), Json::Object(ty)) => match type_ref(ty) {
                Some(item) => Some(refs.push(item)),
                None => None,
            },
            _ => None,
        }
    }
}


/// The descriptors of a longer prefix are missing where those of a shorter
/// one are.
proof fn lemma_type_refs_none(items: Seq<Json>, n: nat, m: nat)
    requires
        n <= m <= items.len(),
        type_refs(items, n) is None,
    ensures
        type_refs(items, m) is None,
    decreases m,
{
    if n < m {
        lemma_type_refs_none(items, n, (m - 1) as nat);
    }
}

/// As many descriptors come out as elements went in.
proof fn lemma_type_refs_len(items: Seq<Json>, n: nat)
    requires
        n <= items.len(),
        type_refs(items, n) is Some,
    ensures
        type_refs(items, n)->0.len() == n,
    decreases n,
{
    if n > 0 {
        lemma_type_refs_len(items, (n - 1) as nat);
    }
}

/// What is appended to a sequence of descriptors leaves the expressions of
/// those before it as they were.
proof fn lemma_resolve_first_push(items: Seq<TypeRef>, last: TypeRef, n: nat)
    requires
        n <= items.len(),
    ensures
        resolve_first(items.push(last), n) == resolve_first(items, n),
    decreases n,
{
    if n > 0 {
        lemma_resolve_first_push(items, last, (n - 1) as nat);
    }
}

/// Resolves a JSON type object to the target type expression of the
/// descriptor that it states.
pub fn decode_type(ty: &serde_json::Map<String, serde_json::Value>) -> (out: Option<String>)
    ensures
        text_of(out) == resolved(type_ref(members_of(*ty))),
    decreases members_of(*ty), 1nat,
{
    let code = text_at(ty, "code")?;
    if same_text(code, "STRING") {
        Some(String::from_str("String"))
    } else if same_text(code, "SINT32") {
        Some(String::from_str("i32"))
    } else if same_text(code, "BOOL") {
        Some(String::from_str("bool"))
    } else if same_text(code, "FLOAT") {
        Some(String::from_str("f32"))
    } else if same_text(code, "DOUBLE") {
        Some(String::from_str("f64"))
    } else if same_text(code, "TUPLE") {
        decode_tuple(ty)
    } else if same_text(code, "LIST") {
        decode_list(ty)
    } else if same_text(code, "CLASS") {
        decode_class(ty)
    } else {
        Some(String::new())
    }
}

/// Resolves a `TUPLE` type object: the expressions of all descriptors under
/// `types`, in order, between round brackets.
pub fn decode_tuple(ty: &serde_json::Map<String, serde_json::Value>) -> (out: Option<String>)
    ensures
        text_of(out) == resolved(tuple_ref(members_of(*ty))),
    decreases members_of(*ty), 0nat,
{
    let items = array_at(ty, "types")?;
    let ghost found = items@.map_values(|item: serde_json::Value| json_of(item));
    let mut parts: Vec<String> = Vec::new();
    let mut i: usize = 0;
    while i < items.len()
        invariant
            i <= items.len(),
            found == items@.map_values(|item: serde_json::Value| json_of(item)),
            array_member(members_of(*ty), "types"@) == Some(found),
            type_refs(found, i as nat) is Some,
            texts(parts@) == resolve_first(type_refs(found, i as nat)->0, i as nat),
        decreases items.len() - i,
    {
        proof {
            lemma_type_refs_len(found, i as nat);
            if type_refs(found, (i + 1) as nat) is None {
                lemma_type_refs_none(found, (i + 1) as nat, found.len());
            }
        }
        let item = as_object(&items[i])?;
        let part = decode_type(item)?;
        proof {
            let before = type_refs(found, i as nat)->0;
            lemma_resolve_first_push(before, type_ref(members_of(*item))->0, i as nat);
        }
        parts.push(part);
        i += 1;
    }
    proof {
        lemma_type_refs_len(found, found.len());
    }
    let mut out = String::from_str("(");
    out.append(join(&parts, ", ").as_str());
    out.append(")");
    Some(out)
}

/// Resolves a `LIST` type object: a vector of the first descriptor under
/// `types`.
pub fn decode_list(ty: &serde_json::Map<String, serde_json::Value>) -> (out: Option<String>)
    ensures
        text_of(out) == resolved(list_ref(members_of(*ty))),
    decreases members_of(*ty), 0nat,
{
    let items = array_at(ty, "types")?;
    if items.len() == 0 {
        return None;
    }
    let item = decode_type(as_object(&items[0])?)?;
    let mut out = String::from_str("Vec<");
    out.append(item.as_str());
    out.append(">");
    Some(out)
}

/// Resolves a `CLASS` type object: the path of the class in the namespace
/// of its service.
pub fn decode_class(ty: &serde_json::Map<String, serde_json::Value>) -> (out: Option<String>)
    ensures
        text_of(out) == resolved(class_ref(members_of(*ty))),
{
    let service = text_at(ty, "service")?;
    let name = text_at(ty, "name")?;
    Some(class_path(member_style(service).as_str(), name))
}

/// Writes the path of the class `name` in the namespace `namespace`.
pub fn class_path(namespace: &str, name: &str) -> (out: String)
    ensures
        out@ == "crate::services::"@ + namespace@ + "::"@ + name@,
{
    let mut out = String::from_str("crate::services::");
    out.append(namespace);
    out.append("::");
    out.append(name);
    out
}

/// Each primitive kind resolves to its fixed target type, and no two kinds
/// to the same.
pub proof fn lemma_resolve_primitive(kind: Primitive)
    ensures
        resolve(TypeRef::Primitive(kind)) == primitive_name(kind),
        kind is Text ==> resolve(TypeRef::Primitive(kind)) == "String"@,
        kind is Sint32 ==> resolve(TypeRef::Primitive(kind)) == "i32"@,
        kind is Bool ==> resolve(TypeRef::Primitive(kind)) == "bool"@,
        kind is Float ==> resolve(TypeRef::Primitive(kind)) == "f32"@,
        kind is Double ==> resolve(TypeRef::Primitive(kind)) == "f64"@,
        forall|other: Primitive| primitive_name(other) == primitive_name(kind) ==> other == kind,
{
    reveal_strlit("String");
    reveal_strlit("i32");
    reveal_strlit("bool");
    reveal_strlit("f32");
    reveal_strlit("f64");
    assert forall|other: Primitive| primitive_name(other) == primitive_name(kind) implies other
        == kind by {
        let a = primitive_name(other);
        let b = primitive_name(kind);
        assert(a[0] == b[0]);
        assert(a[1] == b[1]);
    }
}

/// The first `n` expressions of a sequence of descriptors are those of its
/// first `n` elements, each in its place.
pub proof fn lemma_resolve_first(items: Seq<TypeRef>, n: nat)
    requires
        n <= items.len(),
    ensures
        resolve_first(items, n) == Seq::new(n, |i: int| resolve(items[i])),
    decreases n,
{
    if n > 0 {
        lemma_resolve_first(items, (n - 1) as nat);
    }
}

/// A tuple resolves to the expressions of its elements, in their order,
/// with a comma and a space between neighbours and round brackets around
/// all.
pub proof fn lemma_resolve_tuple(items: Seq<TypeRef>)
    ensures
        resolve(TypeRef::Tuple(items)) == "("@ + joined(
            Seq::new(items.len(), |i: int| resolve(items[i])),
            ", "@,
        ) + ")"@,
{
    lemma_resolve_first(items, items.len());
}

/// A tuple of two resolves to the expression of the first, then that of
/// the second.
pub proof fn lemma_resolve_pair(first: TypeRef, second: TypeRef)
    ensures
        resolve(TypeRef::Tuple(seq![first, second])) == "("@ + resolve(first) + ", "@ + resolve(
            second,
        ) + ")"@,
{
    let items = seq![first, second];
    lemma_resolve_first(items, 2);
    let parts = resolve_first(items, 2);
    assert(joined_first(parts, ", "@, 2) == joined_first(parts, ", "@, 1) + ", "@ + parts[1]);
}

/// A list resolves to a vector of the expression of its element.
pub proof fn lemma_resolve_list(item: TypeRef)
    ensures
        resolve(TypeRef::List(Box::new(item))) == "Vec<"@ + resolve(item) + ">"@,
{
}

/// A class resolves to the namespace of its service, in member style,
/// followed by its own name as it stands.
pub proof fn lemma_resolve_class(service: Seq<char>, name: Seq<char>)
    ensures
        resolve(TypeRef::Class { service, name }) == "crate::services::"@ + cased(
            service,
            Style::Member,
        ) + "::"@ + name,
{
}

} // verus!
