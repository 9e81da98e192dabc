//! The namespace of a service: what it holds, and how it is built.

use crate::casing::{cased, is_bound, member_style, type_style, Style};
use crate::code::{
    function_arg, function_arg_ref_self, function_line, function_model, function_new,
    function_ret, function_vis, has_module, impl_model, impl_new, impl_push_fn, module_import,
    module_model, module_new, module_push_impl, module_push_struct, module_raw, module_vis,
    rendered, scope_get_module, scope_modules, scope_new, scope_push_module, scope_to_string,
    struct_field, struct_new, struct_vis, FunctionModel, ImplModel, ItemModel, ModuleModel,
    StructModel,
};
use crate::json::{
    array_at, array_member, as_object, as_str, entries, get, json_of, members_of, object_at,
    text_at, Json,
};
use crate::schema::{
    enumeration_of, enumerations_of, keys, parameter_of, parameters_of, procedure_of,
    procedures_of, service_of, value_names, EnumDescriptor, ParameterDescriptor,
    ProcedureDescriptor, ServiceDescriptor,
};
use crate::text::{decimal, decimal_text, join, joined, text_of, texts};
use crate::types::{decode_type, resolve, resolved};
use vstd::prelude::*;

verus! {

/// The type of the shared client handle that every service handle holds.
pub open spec fn client_type() -> Seq<char> {
    "::std::sync::Arc<crate::client::Client>"@
}

/// The service handle type: a public struct, named in type style, whose one
/// field is the client.
pub open spec fn handle(service: Seq<char>) -> StructModel {
    StructModel::new(cased(service, Style::Type)).with_vis("pub"@).with_field(
        "pub client"@,
        client_type(),
    )
}

/// The directive that generates a class.
pub open spec fn class_directive(class: Seq<char>) -> Seq<char> {
    "crate::schema::rpc_object!("@ + class + ");"@
}

/// The directive that generates an enumeration with its values in
/// declaration order.
pub open spec fn enum_directive(enumeration: EnumDescriptor) -> Seq<char> {
    "crate::schema::rpc_enum!("@ + enumeration.name + ", ["@ + joined(enumeration.values, ", "@)
        + "]);"@
}

/// The constructor of a service handle: it takes the client and keeps it.
pub open spec fn constructor() -> FunctionModel {
    FunctionModel::new("new"@).with_vis("pub"@).with_arg("client"@, client_type()).with_ret(
        "Self"@,
    ).with_line("Self { client }"@)
}

/// The expression that turns a parameter into the argument of the call
/// position `position`.
pub open spec fn call_argument(parameter: ParameterDescriptor, position: nat) -> Seq<char> {
    cased(parameter.name, Style::Member) + ".to_argument("@ + decimal(position) + ")"@
}

/// The arguments of the call, one for each parameter, each tagged with the
/// position of its parameter.
pub open spec fn call_arguments(parameters: Seq<ParameterDescriptor>) -> Seq<Seq<char>> {
    Seq::new(parameters.len(), |i: int| call_argument(parameters[i], i as nat))
}

/// The arguments of the generated method, one for each parameter: its name
/// in member style and its resolved type.
pub open spec fn signature(parameters: Seq<ParameterDescriptor>) -> Seq<(Seq<char>, Seq<char>)> {
    Seq::new(
        parameters.len(),
        |i: int| (cased(parameters[i].name, Style::Member), resolve(parameters[i].ty)),
    )
}

/// The body of a generated method: it builds the request from the schema
/// names of service and procedure as they stand and from the arguments,
/// sends it through the client and converts the response.
pub open spec fn call_body(
    service: Seq<char>,
    procedure: Seq<char>,
    arguments: Seq<Seq<char>>,
) -> Seq<char> {
    "\nlet request = crate::schema::Request::from(crate::client::Client::proc_call(\n    \""@
        + service + "\",\n    \""@ + procedure + "\",\n    vec!["@ + joined(arguments, ","@)
        + "],\n));\n\nlet response = self.client.call(request);\n"@
        + "dbg!(&response);\n\nresponse.into()\n"@
}

/// The method that binds a procedure of the service `service`.
pub open spec fn method(service: Seq<char>, procedure: ProcedureDescriptor) -> FunctionModel {
    FunctionModel {
        name: cased(procedure.name, Style::Member),
        vis: Some("pub"@),
        receiver: Some("&self"@),
        args: signature(procedure.parameters),
        ret: resolved(procedure.return_type),
        lines: seq![
            call_body(service, procedure.name, call_arguments(procedure.parameters)),
        ],
    }
}

/// The methods that bind `procedures`, in order.
pub open spec fn methods(service: Seq<char>, procedures: Seq<ProcedureDescriptor>) -> Seq<
    FunctionModel,
> {
    Seq::new(procedures.len(), |i: int| method(service, procedures[i]))
}

/// The `impl` block of a service handle: the constructor, then one method
/// for each bound procedure, in order.
pub open spec fn service_impl(service: ServiceDescriptor) -> ImplModel {
    ImplModel {
        target: cased(service.name, Style::Type),
        fns: seq![constructor()] + methods(service.name, service.procedures),
    }
}

/// One directive for each class, in order.
pub open spec fn class_items(classes: Seq<Seq<char>>) -> Seq<ItemModel> {
    Seq::new(classes.len(), |i: int| ItemModel::Raw(class_directive(classes[i])))
}

/// One directive for each enumeration, in order.
pub open spec fn enum_items(enumerations: Seq<EnumDescriptor>) -> Seq<ItemModel> {
    Seq::new(enumerations.len(), |i: int| ItemModel::Raw(enum_directive(enumerations[i])))
}

/// The items of the namespace of a service: the handle, a directive for
/// each class, a directive for each enumeration, and the `impl` block.
pub open spec fn service_items(service: ServiceDescriptor) -> Seq<ItemModel> {
    seq![ItemModel::Struct(handle(service.name))] + class_items(service.classes) + enum_items(
        service.enumerations,
    ) + seq![ItemModel::Impl(service_impl(service))]
}

/// The namespace of a service: a public module, named in member style.
pub open spec fn service_module(service: ServiceDescriptor) -> ModuleModel {
    ModuleModel {
        name: cased(service.name, Style::Member),
        vis: Some("pub"@),
        imports: seq![("crate::schema"@, "ToArgument"@)],
        items: service_items(service),
    }
}

/// Writes the directive that generates the class `class`.
pub fn declare_class(class: &str) -> (out: String)
    ensures
        out@ == class_directive(class@),
{
    let mut out = String::from_str("crate::schema::rpc_object!(");
    out.append(class);
    out.append(");");
    out
}

/// Writes the directive that generates the enumeration `name` with
/// `values` in their order.
pub fn declare_enum(name: &str, values: &Vec<String>) -> (out: String)
    ensures
        out@ == enum_directive((EnumDescriptor { name: name@, values: texts(values@) })),
{
    let mut out = String::from_str("crate::schema::rpc_enum!(");
    out.append(name);
    out.append(", [");
    out.append(join(values, ", ").as_str());
    out.append("]);");
    out
}

/// Writes the expression that turns the parameter `name`, given in member
/// style, into the argument of the call position `position`.
pub fn tag_argument(name: &str, position: usize) -> (out: String)
    ensures
        out@ == name@ + ".to_argument("@ + decimal(position as nat) + ")"@,
{
    let mut out = String::new();
    out.append(name);
    out.append(".to_argument(");
    out.append(decimal_text(position).as_str());
    out.append(")");
    out
}

/// Writes the body of the method that calls `procedure` of `service` with
/// `arguments`.
pub fn write_call(service: &str, procedure: &str, arguments: &Vec<String>) -> (out: String)
    ensures
        out@ == call_body(service@, procedure@, texts(arguments@)),
{
    let mut out = String::from_str(
        "\nlet request = crate::schema::Request::from(crate::client::Client::proc_call(\n    \"",
    );
    out.append(service);
    out.append("\",\n    \"");
    out.append(procedure);
    out.append("\",\n    vec![");
    out.append(join(arguments, ",").as_str());
    out.append("],\n));\n\nlet response = self.client.call(request);\n");
    out.append("dbg!(&response);\n\nresponse.into()\n");
    out
}

proof fn lemma_parameters_none(items: Seq<Json>, n: nat, m: nat)
    requires
        n <= m <= items.len(),
        parameters_of(items, n) is None,
    ensures
        parameters_of(items, m) is None,
    decreases m,
{
    if n < m {
        lemma_parameters_none(items, n, (m - 1) as nat);
    }
}

proof fn lemma_parameters_len(items: Seq<Json>, n: nat)
    requires
        n <= items.len(),
        parameters_of(items, n) is Some,
    ensures
        parameters_of(items, n)->0.len() == n,
    decreases n,
{
    if n > 0 {
        lemma_parameters_len(items, (n - 1) as nat);
    }
}

proof fn lemma_value_names_none(items: Seq<Json>, n: nat, m: nat)
    requires
        n <= m <= items.len(),
        value_names(items, n) is None,
    ensures
        value_names(items, m) is None,
    decreases m,
{
    if n < m {
        lemma_value_names_none(items, n, (m - 1) as nat);
    }
}

proof fn lemma_enumerations_none(entries: Seq<(Seq<char>, Json)>, n: nat, m: nat)
    requires
        n <= m <= entries.len(),
        enumerations_of(entries, n) is None,
    ensures
        enumerations_of(entries, m) is None,
    decreases m,
{
    if n < m {
        lemma_enumerations_none(entries, n, (m - 1) as nat);
    }
}

proof fn lemma_enumerations_len(entries: Seq<(Seq<char>, Json)>, n: nat)
    requires
        n <= entries.len(),
        enumerations_of(entries, n) is Some,
    ensures
        enumerations_of(entries, n)->0.len() == n,
    decreases n,
{
    if n > 0 {
        lemma_enumerations_len(entries, (n - 1) as nat);
    }
}

proof fn lemma_procedures_none(entries: Seq<(Seq<char>, Json)>, n: nat, m: nat)
    requires
        n <= m <= entries.len(),
        procedures_of(entries, n) is None,
    ensures
        procedures_of(entries, m) is None,
    decreases m,
{
    if n < m {
        lemma_procedures_none(entries, n, (m - 1) as nat);
    }
}

/// Reads a parameter: its name in member style and its resolved type.
fn read_parameter(parameter: &serde_json::Value) -> (out: Option<(String, String)>)
    ensures
        match (parameter_of(json_of(*parameter)), out) {
            (Some(read), Some((name, ty))) => name@ == cased(read.name, Style::Member) && ty@
                == resolve(read.ty),
            (None, None) => true,
            _ => false,
        },
{
    let members = as_object(parameter)?;
    let name = member_style(text_at(members, "name")?);
    let ty = decode_type(object_at(members, "type")?)?;
    Some((name, ty))
}

/// Builds the method that binds the procedure `name` of `service`, where
/// its definition states a procedure.
fn bind_procedure(service: &str, name: &str, definition: &serde_json::Value) -> (out: Option<
    codegen::Function,
>)
    ensures
        match procedure_of(name@, json_of(*definition)) {
            Some(procedure) => out is Some && function_model(out->0) == Some(
                method(service@, procedure),
            ),
            None => out is None,
        },
{
    let members = as_object(definition)?;
    let items = array_at(members, "parameters")?;
    let ghost found = items@.map_values(|item: serde_json::Value| json_of(item));
    let mut function = function_new(member_style(name).as_str());
    function_vis(&mut function, "pub");
    function_arg_ref_self(&mut function);
    let ghost head = function_model(function)->0;
    let mut arguments: Vec<String> = Vec::new();
    let mut i: usize = 0;
    proof {
        assert(signature(Seq::empty()) =~= Seq::empty());
    }
    while i < items.len()
        invariant
            i <= items.len(),
            found == items@.map_values(|item: serde_json::Value| json_of(item)),
            json_of(*definition) == Json::Object(members_of(*members)),
            array_member(members_of(*members), "parameters"@) == Some(found),
            parameters_of(found, i as nat) is Some,
            function_model(function) == Some(
                (FunctionModel { args: signature(parameters_of(found, i as nat)->0), ..head }),
            ),
            texts(arguments@) == call_arguments(parameters_of(found, i as nat)->0),
        decreases items.len() - i,
    {
        proof {
            lemma_parameters_len(found, i as nat);
            if parameters_of(found, (i + 1) as nat) is None {
                lemma_parameters_none(found, (i + 1) as nat, found.len());
            }
        }
        let (parameter_name, ty) = read_parameter(&items[i])?;
        let argument = tag_argument(parameter_name.as_str(), i);
        proof {
            let before = parameters_of(found, i as nat)->0;
            let added = parameter_of(found[i as int])->0;
            assert(call_arguments(before.push(added)) =~= call_arguments(before).push(
                call_argument(added, i as nat),
            ));
            assert(signature(before.push(added)) =~= signature(before).push(
                (cased(added.name, Style::Member), resolve(added.ty)),
            ));
        }
        arguments.push(argument);
        function_arg(&mut function, parameter_name.as_str(), ty.as_str());
        i += 1;
    }
    proof {
        lemma_parameters_len(found, found.len());
    }
    function_line(&mut function, write_call(service, name, &arguments).as_str());
    match get(definition, "return_type") {
        Some(value) => {
            let ty = decode_type(as_object(value)?)?;
            function_ret(&mut function, ty.as_str());
        },
        None => {},
    }
    Some(function)
}

/// Builds the text of the directive for the enumeration `name`, where its
/// definition states an enumeration.
fn read_enumeration(name: &str, definition: &serde_json::Value) -> (out: Option<String>)
    ensures
        match enumeration_of(name@, json_of(*definition)) {
            Some(enumeration) => text_of(out) == Some(enum_directive(enumeration)),
            None => out is None,
        },
{
    let members = as_object(definition)?;
    let items = array_at(members, "values")?;
    let ghost found = items@.map_values(|item: serde_json::Value| json_of(item));
    let mut values: Vec<String> = Vec::new();
    let mut i: usize = 0;
    while i < items.len()
        invariant
            i <= items.len(),
            found == items@.map_values(|item: serde_json::Value| json_of(item)),
            json_of(*definition) == Json::Object(members_of(*members)),
            array_member(members_of(*members), "values"@) == Some(found),
            value_names(found, i as nat) is Some,
            texts(values@) == value_names(found, i as nat)->0,
        decreases items.len() - i,
    {
        proof {
            if value_names(found, (i + 1) as nat) is None {
                lemma_value_names_none(found, (i + 1) as nat, found.len());
            }
        }
        let value = String::from_str(as_str(get(&items[i], "name")?)?);
        values.push(value);
        i += 1;
    }
    Some(declare_enum(name, &values))
}

/// Appends to the module one directive for each key of `classes`.
fn push_classes(
    module: &mut codegen::Module,
    classes: &serde_json::Map<String, serde_json::Value>,
)
    requires
        module_model(*old(module)) is Some,
    ensures
        module_model(*final(module)) == Some(
            (ModuleModel {
                items: module_model(*old(module))->0.items + class_items(
                    keys(members_of(*classes)),
                ),
                ..module_model(*old(module))->0
            }),
        ),
{
    let listed = entries(classes);
    let ghost names = keys(members_of(*classes));
    let ghost start = module_model(*module)->0;
    let mut i: usize = 0;
    while i < listed.len()
        invariant
            i <= listed.len(),
            listed@.len() == members_of(*classes).len(),
            forall|k: int|
                0 <= k < listed@.len() ==> (#[trigger] listed@[k]).0@ == members_of(*classes)[k].0,
            names == keys(members_of(*classes)),
            module_model(*module) == Some(
                (ModuleModel { items: start.items + class_items(names.take(i as int)), ..start }),
            ),
        decreases listed.len() - i,
    {
        let directive = declare_class(listed[i].0.as_str());
        proof {
            assert(start.items + class_items(names.take(i + 1)) =~= (start.items + class_items(
                names.take(i as int),
            )).push(ItemModel::Raw(directive@)));
        }
        module_raw(module, directive.as_str());
        i += 1;
    }
    proof {
        assert(names.take(i as int) =~= names);
    }
}

/// Appends to the module one directive for each enumeration of
/// `enumerations`; `None` where one of them states no enumeration.
fn push_enumerations(
    module: &mut codegen::Module,
    enumerations: &serde_json::Map<String, serde_json::Value>,
) -> (out: Option<()>)
    requires
        module_model(*old(module)) is Some,
    ensures
        match enumerations_of(members_of(*enumerations), members_of(*enumerations).len()) {
            Some(read) => out is Some && module_model(*final(module)) == Some(
                (ModuleModel {
                    items: module_model(*old(module))->0.items + enum_items(read),
                    ..module_model(*old(module))->0
                }),
            ),
            None => out is None,
        },
{
    let listed = entries(enumerations);
    let ghost members = members_of(*enumerations);
    let ghost start = module_model(*module)->0;
    let mut i: usize = 0;
    while i < listed.len()
        invariant
            i <= listed.len(),
            members == members_of(*enumerations),
            listed@.len() == members.len(),
            forall|k: int|
                0 <= k < listed@.len() ==> (#[trigger] listed@[k]).0@ == members[k].0 && json_of(
                    *listed@[k].1,
                ) == members[k].1,
            enumerations_of(members, i as nat) is Some,
            module_model(*module) == Some(
                (ModuleModel {
                    items: start.items + enum_items(enumerations_of(members, i as nat)->0),
                    ..start
                }),
            ),
        decreases listed.len() - i,
    {
        proof {
            lemma_enumerations_len(members, i as nat);
            if enumerations_of(members, (i + 1) as nat) is None {
                lemma_enumerations_none(members, (i + 1) as nat, members.len());
            }
        }
        let directive = read_enumeration(listed[i].0.as_str(), listed[i].1)?;
        proof {
            let before = enumerations_of(members, i as nat)->0;
            let added = enumeration_of(members[i as int].0, members[i as int].1)->0;
            assert(start.items + enum_items(before.push(added)) =~= (start.items + enum_items(
                before,
            )).push(ItemModel::Raw(directive@)));
        }
        module_raw(module, directive.as_str());
        i += 1;
    }
    Some(())
}

/// Appends to the block one method for each bound procedure of
/// `procedures`; `None` where one of them states no procedure.
fn push_methods(
    block: &mut codegen::Impl,
    service: &str,
    procedures: &serde_json::Map<String, serde_json::Value>,
) -> (out: Option<()>)
    requires
        impl_model(*old(block)) is Some,
    ensures
        match procedures_of(members_of(*procedures), members_of(*procedures).len()) {
            Some(read) => out is Some && impl_model(*final(block)) == Some(
                (ImplModel {
                    fns: impl_model(*old(block))->0.fns + methods(service@, read),
                    ..impl_model(*old(block))->0
                }),
            ),
            None => out is None,
        },
{
    let listed = entries(procedures);
    let ghost members = members_of(*procedures);
    let ghost start = impl_model(*block)->0;
    let mut i: usize = 0;
    while i < listed.len()
        invariant
            i <= listed.len(),
            members == members_of(*procedures),
            listed@.len() == members.len(),
            forall|k: int|
                0 <= k < listed@.len() ==> (#[trigger] listed@[k]).0@ == members[k].0 && json_of(
                    *listed@[k].1,
                ) == members[k].1,
            procedures_of(members, i as nat) is Some,
            impl_model(*block) == Some(
                (ImplModel {
                    fns: start.fns + methods(service@, procedures_of(members, i as nat)->0),
                    ..start
                }),
            ),
        decreases listed.len() - i,
    {
        if is_bound(listed[i].0.as_str()) {
            proof {
                if procedures_of(members, (i + 1) as nat) is None {
                    lemma_procedures_none(members, (i + 1) as nat, members.len());
                }
            }
            let function = bind_procedure(service, listed[i].0.as_str(), listed[i].1)?;
            proof {
                let before = procedures_of(members, i as nat)->0;
                let added = procedure_of(members[i as int].0, members[i as int].1)->0;
                assert(start.fns + methods(service@, before.push(added)) =~= (start.fns + methods(
                    service@,
                    before,
                )).push(method(service@, added)));
            }
            impl_push_fn(block, function);
        }
        i += 1;
    }
    Some(())
}

/// Builds the namespace of the service `name`, where its properties state
/// a service.
fn service_namespace(name: &str, properties: &serde_json::Value) -> (out: Option<codegen::Module>)
    ensures
        match service_of(name@, json_of(*properties)) {
            Some(service) => out is Some && module_model(out->0) == Some(service_module(service)),
            None => out is None,
        },
{
    let handle_name = type_style(name);
    let mut module = module_new(member_style(name).as_str());
    module_vis(&mut module, "pub");
    proof {
        reveal_strlit("ToArgument");
    }
    module_import(&mut module, "crate::schema", "ToArgument");
    let mut definition = struct_new(handle_name.as_str());
    struct_vis(&mut definition, "pub");
    struct_field(&mut definition, "pub client", "::std::sync::Arc<crate::client::Client>");
    module_push_struct(&mut module, definition);

    let members = as_object(properties)?;
    push_classes(&mut module, object_at(members, "classes")?);
    push_enumerations(&mut module, object_at(members, "enumerations")?)?;

    let mut block = impl_new(handle_name.as_str());
    let mut make = function_new("new");
    function_vis(&mut make, "pub");
    function_arg(&mut make, "client", "::std::sync::Arc<crate::client::Client>");
    function_ret(&mut make, "Self");
    function_line(&mut make, "Self { client }");
    impl_push_fn(&mut block, make);
    push_methods(&mut block, name, object_at(members, "procedures")?)?;
    module_push_impl(&mut module, block);
    proof {
        let service = service_of(name@, json_of(*properties))->0;
        assert(module_model(module)->0.items =~= service_module(service).items);
    }
    Some(module)
}

/// Why no bindings come out.
#[derive(Clone, Copy, Debug, PartialEq, Eq, Structural)]
pub enum BuildError {
    /// A document is no JSON text.
    Syntax,
    /// A document, a service, an enumeration or a bound procedure is not of
    /// the shape that reading it calls for.
    Schema,
    /// The namespace of a service exists already.
    Collision,
}

/// The namespaces generated so far, in order.
pub struct Bindings {
    scope: codegen::Scope,
}

impl View for Bindings {
    type V = Seq<ModuleModel>;

    closed spec fn view(&self) -> Seq<ModuleModel> {
        scope_modules(self.scope)->0
    }
}

impl Bindings {
    #[verifier::type_invariant]
    spec fn holds_modules(self) -> bool {
        scope_modules(self.scope) is Some
    }

    /// No namespace yet.
    pub fn new() -> (out: Self)
        ensures
            out@ == Seq::<ModuleModel>::empty(),
    {
        Bindings { scope: scope_new() }
    }

    /// Writes the namespaces out as source text.
    pub fn render(&self) -> (out: String)
        ensures
            out@ == rendered(self@),
    {
        proof {
            use_type_invariant(self);
        }
        scope_to_string(&self.scope)
    }
}

/// The namespaces after the service `name` with the properties `properties`
/// is bound: one more, that of the service. No service is bound where its
/// namespace exists already, nor where its properties state no service.
pub open spec fn bound(modules: Seq<ModuleModel>, name: Seq<char>, properties: Json) -> Result<
    Seq<ModuleModel>,
    BuildError,
> {
    if has_module(modules, cased(name, Style::Member)) {
        Err(BuildError::Collision)
    } else {
        match service_of(name, properties) {
            Some(service) => Ok(modules.push(service_module(service))),
            None => Err(BuildError::Schema),
        }
    }
}

/// Generates the namespace of the service `service_name` from its
/// properties and appends it to `root`, which it leaves as it was where it
/// fails.
pub fn build_json(
    service_name: &String,
    props_json: &serde_json::Value,
    root: &mut Bindings,
) -> (out: Result<(), BuildError>)
    ensures
        match bound(old(root)@, service_name@, json_of(*props_json)) {
            Ok(modules) => out is Ok && final(root)@ == modules,
            Err(error) => out == Err::<(), BuildError>(error) && final(root)@ == old(root)@,
        },
{
    proof {
        use_type_invariant(&*root);
    }
    let module_name = member_style(service_name.as_str());
    if scope_get_module(&root.scope, module_name.as_str()).is_some() {
        return Err(BuildError::Collision);
    }
    let module = match service_namespace(service_name.as_str(), props_json) {
        Some(module) => module,
        None => {
            return Err(BuildError::Schema);
        },
    };
    let mut scope = scope_new();
    std::mem::swap(&mut scope, &mut root.scope);
    scope_push_module(&mut scope, module);
    root.scope = scope;
    Ok(())
}

/// A method has one call argument for each parameter of its procedure, in
/// declaration order, and each is tagged with the position of its
/// parameter, counted from zero; the body of the method is the call with
/// these arguments.
pub proof fn lemma_arguments_are_positional(service: Seq<char>, procedure: ProcedureDescriptor)
    ensures
        call_arguments(procedure.parameters).len() == procedure.parameters.len(),
        forall|i: int|
            0 <= i < procedure.parameters.len() ==> #[trigger] call_arguments(
                procedure.parameters,
            )[i] == cased(procedure.parameters[i].name, Style::Member) + ".to_argument("@
                + decimal(i as nat) + ")"@,
        method(service, procedure).args.len() == procedure.parameters.len(),
        forall|i: int|
            0 <= i < procedure.parameters.len() ==> #[trigger] method(service, procedure).args[i]
                == (
                cased(procedure.parameters[i].name, Style::Member),
                resolve(procedure.parameters[i].ty),
            ),
        method(service, procedure).lines == seq![
            call_body(service, procedure.name, call_arguments(procedure.parameters)),
        ],
{
}

/// Each bound procedure of a service has its method in the `impl` block of
/// the service, after the constructor and in schema order.
pub proof fn lemma_bound_procedures_are_emitted(service: ServiceDescriptor, at: int)
    requires
        0 <= at < service.procedures.len(),
    ensures
        service_impl(service).fns.len() == service.procedures.len() + 1,
        service_impl(service).fns[0] == constructor(),
        service_impl(service).fns[at + 1] == method(service.name, service.procedures[at]),
{
}

} // verus!
