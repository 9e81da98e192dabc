//! Generates client bindings for remote procedure call services.
//!
//! A service definition is a JSON document that maps service names to their
//! classes, enumerations and procedures. [`build`] reads such documents and
//! writes one source text with a namespace for each service: a handle type,
//! a directive for each class and enumeration, and a method for each
//! procedure whose name is in type style.
//!
//! The documents are read with `serde_json`, names are converted with
//! `convert_case`, and the text is laid out by `codegen`. What these crates
//! return is not proved here: the contracts name it ([`json::parsed`],
//! [`casing::cased`], [`code::rendered`]) and state what is built from it.

use vstd::prelude::*;

pub mod casing;
pub mod code;
pub mod emit;
pub mod json;
pub mod schema;
pub mod text;
pub mod types;

use crate::code::{rendered, ModuleModel};
use crate::emit::{bound, build_json, Bindings, BuildError};
use crate::json::{as_object, entries, json_of, members_of, parse, parsed, Json};
use crate::text::texts;

verus! {

/// The namespaces after the first `n` of `services`, each a name and its
/// properties, are bound in order; the first failure ends it.
pub open spec fn services_bound(
    modules: Seq<ModuleModel>,
    services: Seq<(Seq<char>, Json)>,
    n: nat,
) -> Result<Seq<ModuleModel>, BuildError>
    decreases n,
{
    if n == 0 || n > services.len() {
        Ok(modules)
    } else {
        match services_bound(modules, services, (n - 1) as nat) {
            Ok(modules) => bound(modules, services[n - 1].0, services[n - 1].1),
            Err(error) => Err(error),
        }
    }
}

/// The namespaces after a document is read: a JSON object whose members
/// are services, bound in the order in which the object hands them out.
pub open spec fn document_bound(modules: Seq<ModuleModel>, document: Seq<char>) -> Result<
    Seq<ModuleModel>,
    BuildError,
> {
    match parsed(document) {
        None => Err(BuildError::Syntax),
        Some(Json::Object(services)) => services_bound(modules, services, services.len()),
        Some(_) => Err(BuildError::Schema),
    }
}

/// The namespaces after the first `n` of `documents` are read in order,
/// starting from none; the first failure ends it.
pub open spec fn documents_bound(documents: Seq<Seq<char>>, n: nat) -> Result<
    Seq<ModuleModel>,
    BuildError,
>
    decreases n,
{
    if n == 0 || n > documents.len() {
        Ok(Seq::empty())
    } else {
        match documents_bound(documents, (n - 1) as nat) {
            Ok(modules) => document_bound(modules, documents[n - 1]),
            Err(error) => Err(error),
        }
    }
}

/// The source text generated from `documents`, or why there is none.
pub open spec fn generated(documents: Seq<Seq<char>>) -> Result<Seq<char>, BuildError> {
    match documents_bound(documents, documents.len()) {
        Ok(modules) => Ok(rendered(modules)),
        Err(error) => Err(error),
    }
}

/// Whether `out` is what [`build`] returns for `documents`.
pub open spec fn is_output(documents: Seq<Seq<char>>, out: Result<String, BuildError>) -> bool {
    match generated(documents) {
        Ok(text) => out is Ok && out->Ok_0@ == text,
        Err(error) => out == Err::<String, BuildError>(error),
    }
}

proof fn lemma_services_failed(
    modules: Seq<ModuleModel>,
    services: Seq<(Seq<char>, Json)>,
    n: nat,
    m: nat,
)
    requires
        n <= m <= services.len(),
        services_bound(modules, services, n) is Err,
    ensures
        services_bound(modules, services, m) == services_bound(modules, services, n),
    decreases m,
{
    if n < m {
        lemma_services_failed(modules, services, n, (m - 1) as nat);
    }
}

proof fn lemma_documents_failed(documents: Seq<Seq<char>>, n: nat, m: nat)
    requires
        n <= m <= documents.len(),
        documents_bound(documents, n) is Err,
    ensures
        documents_bound(documents, m) == documents_bound(documents, n),
    decreases m,
{
    if n < m {
        lemma_documents_failed(documents, n, (m - 1) as nat);
    }
}

/// Reads one document and binds its services, in the order in which the
/// document hands them out. It takes the namespaces generated so far and
/// gives them back with those of the document added; where it fails they
/// are gone.
pub fn add_document(root: Bindings, document: &str) -> (out: Result<Bindings, BuildError>)
    ensures
        match document_bound(root@, document@) {
            Ok(modules) => out is Ok && out->Ok_0@ == modules,
            Err(error) => out is Err && out->Err_0 == error,
        },
{
    let ghost start = root@;
    let mut bindings = root;
    let value = match parse(document) {
        Ok(value) => value,
        Err(_) => {
            return Err(BuildError::Syntax);
        },
    };
    let services = match as_object(&value) {
        Some(services) => services,
        None => {
            return Err(BuildError::Schema);
        },
    };
    let listed = entries(services);
    let ghost members = members_of(*services);
    let mut i: usize = 0;
    while i < listed.len()
        invariant
            i <= listed.len(),
            members == members_of(*services),
            listed@.len() == members.len(),
            forall|k: int|
                0 <= k < listed@.len() ==> (#[trigger] listed@[k]).0@ == members[k].0 && json_of(
                    *listed@[k].1,
                ) == members[k].1,
            start == root@,
            document_bound(start, document@) == services_bound(start, members, members.len()),
            services_bound(start, members, i as nat) == Ok::<Seq<ModuleModel>, BuildError>(
                bindings@,
            ),
        decreases listed.len() - i,
    {
        match build_json(listed[i].0, listed[i].1, &mut bindings) {
            Ok(()) => {},
            Err(error) => {
                proof {
                    lemma_services_failed(start, members, (i + 1) as nat, members.len());
                }
                return Err(error);
            },
        }
        i += 1;
    }
    Ok(bindings)
}

/// Generates the bindings of all services of `documents`, read in order,
/// as one source text. Each document is the JSON text of an object whose
/// members are services.
pub fn build(documents: &Vec<String>) -> (out: Result<String, BuildError>)
    ensures
        is_output(texts(documents@), out),
{
    let mut root = Bindings::new();
    let mut i: usize = 0;
    while i < documents.len()
        invariant
            i <= documents.len(),
            documents_bound(texts(documents@), i as nat) == Ok::<Seq<ModuleModel>, BuildError>(
                root@,
            ),
        decreases documents.len() - i,
    {
        root = match add_document(root, documents[i].as_str()) {
            Ok(root) => root,
            Err(error) => {
                proof {
                    lemma_documents_failed(
                        texts(documents@),
                        (i + 1) as nat,
                        texts(documents@).len(),
                    );
                }
                return Err(error);
            },
        };
        i += 1;
    }
    Ok(root.render())
}


/// What is generated is a function of the documents and their order alone:
/// any two outputs for the same documents agree, character for character.
pub proof fn lemma_output_is_unique(
    documents: Seq<Seq<char>>,
    first: Result<String, BuildError>,
    second: Result<String, BuildError>,
)
    requires
        is_output(documents, first),
        is_output(documents, second),
    ensures
        first is Ok <==> second is Ok,
        first is Ok ==> first->Ok_0@ == second->Ok_0@,
        first is Err ==> first->Err_0 == second->Err_0,
{
}

/// No documents give the text of an empty scope, and no failure.
pub proof fn lemma_no_documents()
    ensures
        generated(Seq::empty()) == Ok::<Seq<char>, BuildError>(rendered(Seq::empty())),
{
}

} // verus!
