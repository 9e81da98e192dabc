//! The schema of a service, as a JSON document states it.

use crate::casing::is_type_style;
use crate::json::{array_member, field, member, object_member, text_member, Json};
use crate::types::{type_ref, TypeRef};
use vstd::prelude::*;

verus! {

/// A parameter of a procedure.
pub struct ParameterDescriptor {
    pub name: Seq<char>,
    pub ty: TypeRef,
}

/// A procedure: its schema name, its parameters in call order, and its
/// return type where it has one.
pub struct ProcedureDescriptor {
    pub name: Seq<char>,
    pub parameters: Seq<ParameterDescriptor>,
    pub return_type: Option<TypeRef>,
}

/// An enumeration: its name and the names of its values, in declaration
/// order.
pub struct EnumDescriptor {
    pub name: Seq<char>,
    pub values: Seq<Seq<char>>,
}

/// A service, as far as bindings are generated from it. `procedures` holds
/// the procedures whose schema name is in type style, in schema order; the
/// others are not bound and not read.
pub struct ServiceDescriptor {
    pub name: Seq<char>,
    pub classes: Seq<Seq<char>>,
    pub enumerations: Seq<EnumDescriptor>,
    pub procedures: Seq<ProcedureDescriptor>,
}

/// The parameter that a JSON object with a string `name` and an object
/// `type` states.
pub open spec fn parameter_of(parameter: Json) -> Option<ParameterDescriptor> {
    match parameter {
        Json::Object(members) => match (
            text_member(members, "name"@),
            object_member(members, "type"@),
        ) {
            (Some(name), Some(ty)) => match type_ref(ty) {
                Some(ty) => Some(ParameterDescriptor { name, ty }),
                None => None,
            },
            _ => None,
        },
        _ => None,
    }
}

/// The parameters that the first `n` of `items` state, in order.
pub open spec fn parameters_of(items: Seq<Json>, n: nat) -> Option<Seq<ParameterDescriptor>>
    decreases n,
{
    if n == 0 || n > items.len() {
        Some(Seq::empty())
    } else {
        match (parameters_of(items, (n - 1) as nat), parameter_of(items[n - 1])) {
            (Some(parameters), Some(parameter)) => Some(parameters.push(parameter)),
            _ => None,
        }
    }
}

/// The return type that the members of a procedure state: none where they
/// have no `return_type`, the descriptor of the object under it otherwise.
/// `None` where `return_type` is present and no type object.
pub open spec fn return_type_of(members: Seq<(Seq<char>, Json)>) -> Option<Option<TypeRef>> {
    match member(members, "return_type"@) {
        None => Some(None),
        Some(Json::Object(ty)) => match type_ref(ty) {
            Some(ty) => Some(Some(ty)),
            None => None,
        },
        Some(_) => None,
    }
}

/// The procedure that a JSON object with an array `parameters` states
/// under the schema name `name`.
pub open spec fn procedure_of(name: Seq<char>, definition: Json) -> Option<ProcedureDescriptor> {
    match definition {
        Json::Object(members) => match array_member(members, "parameters"@) {
            Some(items) => match (parameters_of(items, items.len()), return_type_of(members)) {
                (Some(parameters), Some(return_type)) => Some(
                    ProcedureDescriptor { name, parameters, return_type },
                ),
                _ => None,
            },
            None => None,
        },
        _ => None,
    }
}

/// The bound procedures among the first `n` of `entries`, in order: an
/// entry whose name is not in type style is passed over unread.
pub open spec fn procedures_of(entries: Seq<(Seq<char>, Json)>, n: nat) -> Option<
    Seq<ProcedureDescriptor>,
>
    decreases n,
{
    if n == 0 || n > entries.len() {
        Some(Seq::empty())
    } else {
        match procedures_of(entries, (n - 1) as nat) {
            None => None,
            Some(procedures) => if !is_type_style(entries[n - 1].0) {
                Some(procedures)
            } else {
                match procedure_of(entries[n - 1].0, entries[n - 1].1) {
                    Some(procedure) => Some(procedures.push(procedure)),
                    None => None,
                }
            },
        }
    }
}

/// The names under `name` of the first `n` of `items`, in order.
pub open spec fn value_names(items: Seq<Json>, n: nat) -> Option<Seq<Seq<char>>>
    decreases n,
{
    if n == 0 || n > items.len() {
        Some(Seq::empty())
    } else {
        match (value_names(items, (n - 1) as nat), field(items[n - 1], "name"@)) {
            (Some(names), Some(Json::Text(name))) => Some(names.push(name)),
            _ => None,
        }
    }
}

/// The enumeration that a JSON object with an array `values` states under
/// the name `name`.
pub open spec fn enumeration_of(name: Seq<char>, definition: Json) -> Option<EnumDescriptor> {
    match definition {
        Json::Object(members) => match array_member(members, "values"@) {
            Some(items) => match value_names(items, items.len()) {
                Some(values) => Some(EnumDescriptor { name, values }),
                None => None,
            },
            None => None,
        },
        _ => None,
    }
}

/// The enumerations that the first `n` of `entries` state, in order.
pub open spec fn enumerations_of(entries: Seq<(Seq<char>, Json)>, n: nat) -> Option<
    Seq<EnumDescriptor>,
>
    decreases n,
{
    if n == 0 || n > entries.len() {
        Some(Seq::empty())
    } else {
        match (
            enumerations_of(entries, (n - 1) as nat),
            enumeration_of(entries[n - 1].0, entries[n - 1].1),
        ) {
            (Some(enumerations), Some(enumeration)) => Some(enumerations.push(enumeration)),
            _ => None,
        }
    }
}

/// The keys of `entries`, in order.
pub open spec fn keys(entries: Seq<(Seq<char>, Json)>) -> Seq<Seq<char>> {
    entries.map_values(|entry: (Seq<char>, Json)| entry.0)
}

/// The service that a JSON object with the objects `classes`,
/// `enumerations` and `procedures` states under the name `name`. `None`
/// where one of the three is missing or no object, or where an enumeration
/// or a bound procedure is not of the shape that its reading calls for.
pub open spec fn service_of(name: Seq<char>, properties: Json) -> Option<ServiceDescriptor> {
    match properties {
        Json::Object(members) => match (
            object_member(members, "classes"@),
            object_member(members, "enumerations"@),
            object_member(members, "procedures"@),
        ) {
            (Some(classes), Some(enumerations), Some(procedures)) => match (
                enumerations_of(enumerations, enumerations.len()),
                procedures_of(procedures, procedures.len()),
            ) {
                (Some(enumerations), Some(procedures)) => Some(
                    ServiceDescriptor { name, classes: keys(classes), enumerations, procedures },
                ),
                _ => None,
            },
            _ => None,
        },
        _ => None,
    }
}


/// The bound procedures among the first `n` entries depend on those
/// entries alone.
pub proof fn lemma_procedures_of_prefix(
    left: Seq<(Seq<char>, Json)>,
    right: Seq<(Seq<char>, Json)>,
    n: nat,
)
    requires
        n <= left.len(),
        n <= right.len(),
        forall|i: int| 0 <= i < n ==> left[i] == right[i],
    ensures
        procedures_of(left, n) == procedures_of(right, n),
    decreases n,
{
    if n > 0 {
        lemma_procedures_of_prefix(left, right, (n - 1) as nat);
    }
}

/// Where the bound procedures of a longer prefix can be read, so can those
/// of a shorter one, and they are the first of the longer.
pub proof fn lemma_procedures_of_extends(entries: Seq<(Seq<char>, Json)>, n: nat, m: nat)
    requires
        n <= m <= entries.len(),
        procedures_of(entries, m) is Some,
    ensures
        procedures_of(entries, n) is Some,
        procedures_of(entries, n)->0.len() <= procedures_of(entries, m)->0.len(),
        forall|k: int|
            0 <= k < procedures_of(entries, n)->0.len() ==> procedures_of(entries, n)->0[k]
                == procedures_of(entries, m)->0[k],
    decreases m,
{
    if n < m {
        lemma_procedures_of_extends(entries, n, (m - 1) as nat);
    }
}

/// A procedure whose name is not in type style is passed over, and the
/// others are bound as they are without it: taking its entry out of the
/// schema changes nothing.
pub proof fn lemma_unbound_procedure_has_no_effect(entries: Seq<(Seq<char>, Json)>, at: int)
    requires
        0 <= at < entries.len(),
        !is_type_style(entries[at].0),
    ensures
        procedures_of(entries.remove(at), (entries.len() - 1) as nat) == procedures_of(
            entries,
            entries.len(),
        ),
{
    lemma_procedures_without(entries, at, entries.len());
}

proof fn lemma_procedures_without(entries: Seq<(Seq<char>, Json)>, at: int, n: nat)
    requires
        0 <= at < n <= entries.len(),
        !is_type_style(entries[at].0),
    ensures
        procedures_of(entries.remove(at), (n - 1) as nat) == procedures_of(entries, n),
    decreases n,
{
    let rest = entries.remove(at);
    if n == at + 1 {
        lemma_procedures_of_prefix(rest, entries, at as nat);
    } else {
        lemma_procedures_without(entries, at, (n - 1) as nat);
    }
}

/// A procedure whose name is in type style is bound: where the procedures
/// of a schema can be read, its descriptor is among them.
pub proof fn lemma_bound_procedure_is_read(entries: Seq<(Seq<char>, Json)>, at: int)
    requires
        0 <= at < entries.len(),
        is_type_style(entries[at].0),
        procedures_of(entries, entries.len()) is Some,
    ensures
        procedure_of(entries[at].0, entries[at].1) is Some,
        procedures_of(entries, entries.len())->0.contains(
            procedure_of(entries[at].0, entries[at].1)->0,
        ),
{
    lemma_procedures_of_extends(entries, (at + 1) as nat, entries.len());
    lemma_procedures_of_extends(entries, at as nat, (at + 1) as nat);
    let before = procedures_of(entries, at as nat)->0;
    let procedure = procedure_of(entries[at].0, entries[at].1)->0;
    assert(procedures_of(entries, (at + 1) as nat)->0 == before.push(procedure));
    assert(procedures_of(entries, entries.len())->0[before.len() as int] == procedure);
}

} // verus!
