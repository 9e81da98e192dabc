//! The code model handed to `codegen`, and the calls that build it.

use vstd::prelude::*;

verus! {

/// A function definition: what `codegen` is told of it.
pub struct FunctionModel {
    pub name: Seq<char>,
    pub vis: Option<Seq<char>>,
    /// The `self` argument, as it is written.
    pub receiver: Option<Seq<char>>,
    /// The other arguments, each a name and a type, in order.
    pub args: Seq<(Seq<char>, Seq<char>)>,
    pub ret: Option<Seq<char>>,
    /// The lines of the body, in order.
    pub lines: Seq<Seq<char>>,
}

/// A struct definition with named fields.
pub struct StructModel {
    pub name: Seq<char>,
    pub vis: Option<Seq<char>>,
    /// The fields, each a name and a type, in order.
    pub fields: Seq<(Seq<char>, Seq<char>)>,
}

/// An inherent `impl` block.
pub struct ImplModel {
    pub target: Seq<char>,
    pub fns: Seq<FunctionModel>,
}

/// An item of a module.
pub enum ItemModel {
    Struct(StructModel),
    Impl(ImplModel),
    /// Text that is written out as it stands.
    Raw(Seq<char>),
}

/// A module: its imports, each a path and a type, and its items, in order.
pub struct ModuleModel {
    pub name: Seq<char>,
    pub vis: Option<Seq<char>>,
    pub imports: Seq<(Seq<char>, Seq<char>)>,
    pub items: Seq<ItemModel>,
}

impl FunctionModel {
    pub open spec fn new(name: Seq<char>) -> Self {
        FunctionModel {
            name,
            vis: None,
            receiver: None,
            args: Seq::empty(),
            ret: None,
            lines: Seq::empty(),
        }
    }

    pub open spec fn with_vis(self, vis: Seq<char>) -> Self {
        FunctionModel { vis: Some(vis), ..self }
    }

    pub open spec fn with_receiver(self, receiver: Seq<char>) -> Self {
        FunctionModel { receiver: Some(receiver), ..self }
    }

    pub open spec fn with_arg(self, name: Seq<char>, ty: Seq<char>) -> Self {
        FunctionModel { args: self.args.push((name, ty)), ..self }
    }

    pub open spec fn with_ret(self, ty: Seq<char>) -> Self {
        FunctionModel { ret: Some(ty), ..self }
    }

    pub open spec fn with_line(self, line: Seq<char>) -> Self {
        FunctionModel { lines: self.lines.push(line), ..self }
    }
}

impl StructModel {
    pub open spec fn new(name: Seq<char>) -> Self {
        StructModel { name, vis: None, fields: Seq::empty() }
    }

    pub open spec fn with_vis(self, vis: Seq<char>) -> Self {
        StructModel { vis: Some(vis), ..self }
    }

    pub open spec fn with_field(self, name: Seq<char>, ty: Seq<char>) -> Self {
        StructModel { fields: self.fields.push((name, ty)), ..self }
    }
}

impl ImplModel {
    pub open spec fn new(target: Seq<char>) -> Self {
        ImplModel { target, fns: Seq::empty() }
    }

    pub open spec fn with_fn(self, function: FunctionModel) -> Self {
        ImplModel { fns: self.fns.push(function), ..self }
    }
}

impl ModuleModel {
    pub open spec fn new(name: Seq<char>) -> Self {
        ModuleModel { name, vis: None, imports: Seq::empty(), items: Seq::empty() }
    }

    pub open spec fn with_vis(self, vis: Seq<char>) -> Self {
        ModuleModel { vis: Some(vis), ..self }
    }

    pub open spec fn with_import(self, path: Seq<char>, ty: Seq<char>) -> Self {
        ModuleModel { imports: self.imports.push((path, ty)), ..self }
    }

    pub open spec fn with_item(self, item: ItemModel) -> Self {
        ModuleModel { items: self.items.push(item), ..self }
    }
}

/// Whether one of `modules` has the name `name`.
pub open spec fn has_module(modules: Seq<ModuleModel>, name: Seq<char>) -> bool {
    exists|i: int| 0 <= i < modules.len() && (#[trigger] modules[i]).name == name
}

#[verifier::external_type_specification]
#[verifier::external_body]
pub struct ExFunction(codegen::Function);

#[verifier::external_type_specification]
#[verifier::external_body]
pub struct ExStruct(codegen::Struct);

#[verifier::external_type_specification]
#[verifier::external_body]
pub struct ExImpl(codegen::Impl);

#[verifier::external_type_specification]
#[verifier::external_body]
pub struct ExModule(codegen::Module);

#[verifier::external_type_specification]
#[verifier::external_body]
pub struct ExScope(codegen::Scope);

/// What a `codegen::Function` holds: `Some` of its name, visibility, `self`
/// argument, arguments, return type and body lines where every other field
/// of it is as `Function::new` leaves it and each type has no generics of
/// its own; `None` for any other function.
pub uninterp spec fn function_model(function: codegen::Function) -> Option<FunctionModel>;

/// What a `codegen::Struct` holds: `Some` of its name, visibility and named
/// fields where every other field of it is as `Struct::new` leaves it;
/// `None` for any other struct.
pub uninterp spec fn struct_model(definition: codegen::Struct) -> Option<StructModel>;

/// What a `codegen::Impl` holds: `Some` of its target and functions where
/// each function has a model and every other field is as `Impl::new` leaves
/// it; `None` for any other block.
pub uninterp spec fn impl_model(block: codegen::Impl) -> Option<ImplModel>;

/// What a `codegen::Module` holds: `Some` of its name, visibility, imports
/// and items where each item has a model and every other field is as
/// `Module::new` leaves it; `None` for any other module.
pub uninterp spec fn module_model(module: codegen::Module) -> Option<ModuleModel>;

/// What a `codegen::Scope` holds: `Some` of its modules, in order, where it
/// holds nothing but modules that have a model; `None` for any other scope.
pub uninterp spec fn scope_modules(scope: codegen::Scope) -> Option<Seq<ModuleModel>>;

/// The source text that `codegen` writes for a scope of these modules.
pub uninterp spec fn rendered(modules: Seq<ModuleModel>) -> Seq<char>;

/// Calls `Function::new`: a function of that name with an empty body and
/// nothing else.
#[verifier::external_body]
pub(crate) fn function_new(name: &str) -> (out: codegen::Function)
    ensures
        function_model(out) == Some(FunctionModel::new(name@)),
{
    codegen::Function::new(name)
}

/// Calls `Function::vis`, which sets the visibility.
#[verifier::external_body]
pub(crate) fn function_vis(function: &mut codegen::Function, vis: &str)
    requires
        function_model(*old(function)) is Some,
    ensures
        function_model(*final(function)) == Some(function_model(*old(function))->0.with_vis(vis@)),
{
    function.vis(vis);
}

/// Calls `Function::arg_ref_self`, which sets the `self` argument to
/// `&self`.
#[verifier::external_body]
pub(crate) fn function_arg_ref_self(function: &mut codegen::Function)
    requires
        function_model(*old(function)) is Some,
    ensures
        function_model(*final(function)) == Some(
            function_model(*old(function))->0.with_receiver("&self"@),
        ),
{
    function.arg_ref_self();
}

/// Calls `Function::arg`, which appends an argument of that name and type.
#[verifier::external_body]
pub(crate) fn function_arg(function: &mut codegen::Function, name: &str, ty: &str)
    requires
        function_model(*old(function)) is Some,
    ensures
        function_model(*final(function)) == Some(
            function_model(*old(function))->0.with_arg(name@, ty@),
        ),
{
    function.arg(name, ty);
}

/// Calls `Function::ret`, which sets the return type.
#[verifier::external_body]
pub(crate) fn function_ret(function: &mut codegen::Function, ty: &str)
    requires
        function_model(*old(function)) is Some,
    ensures
        function_model(*final(function)) == Some(function_model(*old(function))->0.with_ret(ty@)),
{
    function.ret(ty);
}

/// Calls `Function::line`, which appends a line to the body.
#[verifier::external_body]
pub(crate) fn function_line(function: &mut codegen::Function, line: &str)
    requires
        function_model(*old(function)) is Some,
    ensures
        function_model(*final(function)) == Some(
            function_model(*old(function))->0.with_line(line@),
        ),
{
    function.line(line);
}

/// Calls `Struct::new`: a struct of that name without fields.
#[verifier::external_body]
pub(crate) fn struct_new(name: &str) -> (out: codegen::Struct)
    ensures
        struct_model(out) == Some(StructModel::new(name@)),
{
    codegen::Struct::new(name)
}

/// Calls `Struct::vis`, which sets the visibility.
#[verifier::external_body]
pub(crate) fn struct_vis(definition: &mut codegen::Struct, vis: &str)
    requires
        struct_model(*old(definition)) is Some,
    ensures
        struct_model(*final(definition)) == Some(struct_model(*old(definition))->0.with_vis(vis@)),
{
    definition.vis(vis);
}

/// Calls `Struct::field`, which appends a named field. It panics on a
/// struct with tuple fields, which has no model.
#[verifier::external_body]
pub(crate) fn struct_field(definition: &mut codegen::Struct, name: &str, ty: &str)
    requires
        struct_model(*old(definition)) is Some,
    ensures
        struct_model(*final(definition)) == Some(
            struct_model(*old(definition))->0.with_field(name@, ty@),
        ),
{
    definition.field(name, ty);
}

/// Calls `Impl::new`: an empty block for that target.
#[verifier::external_body]
pub(crate) fn impl_new(target: &str) -> (out: codegen::Impl)
    ensures
        impl_model(out) == Some(ImplModel::new(target@)),
{
    codegen::Impl::new(target)
}

/// Calls `Impl::push_fn`, which appends the function to the block.
#[verifier::external_body]
pub(crate) fn impl_push_fn(block: &mut codegen::Impl, function: codegen::Function)
    requires
        impl_model(*old(block)) is Some,
        function_model(function) is Some,
    ensures
        impl_model(*final(block)) == Some(
            impl_model(*old(block))->0.with_fn(function_model(function)->0),
        ),
{
    block.push_fn(function);
}

/// Calls `Module::new`: an empty module of that name.
#[verifier::external_body]
pub(crate) fn module_new(name: &str) -> (out: codegen::Module)
    ensures
        module_model(out) == Some(ModuleModel::new(name@)),
{
    codegen::Module::new(name)
}

/// Calls `Module::vis`, which sets the visibility.
#[verifier::external_body]
pub(crate) fn module_vis(module: &mut codegen::Module, vis: &str)
    requires
        module_model(*old(module)) is Some,
    ensures
        module_model(*final(module)) == Some(module_model(*old(module))->0.with_vis(vis@)),
{
    module.vis(vis);
}

/// Calls `Module::import`. `codegen` keeps of `ty` what stands before its
/// first `::` and files the import under its path; for a type without a
/// colon, into a module without imports, that is one import of `ty` itself.
#[verifier::external_body]
pub(crate) fn module_import(module: &mut codegen::Module, path: &str, ty: &str)
    requires
        module_model(*old(module)) is Some,
        module_model(*old(module))->0.imports.len() == 0,
        !ty@.contains(':'),
    ensures
        module_model(*final(module)) == Some(
            module_model(*old(module))->0.with_import(path@, ty@),
        ),
{
    module.import(path, ty);
}

/// Calls `Module::push_struct`, which appends the struct to the items.
#[verifier::external_body]
pub(crate) fn module_push_struct(module: &mut codegen::Module, definition: codegen::Struct)
    requires
        module_model(*old(module)) is Some,
        struct_model(definition) is Some,
    ensures
        module_model(*final(module)) == Some(
            module_model(*old(module))->0.with_item(ItemModel::Struct(struct_model(definition)->0)),
        ),
{
    module.push_struct(definition);
}

/// Calls `Scope::raw` on `Module::scope`, which appends the text to the
/// items.
#[verifier::external_body]
pub(crate) fn module_raw(module: &mut codegen::Module, text: &str)
    requires
        module_model(*old(module)) is Some,
    ensures
        module_model(*final(module)) == Some(
            module_model(*old(module))->0.with_item(ItemModel::Raw(text@)),
        ),
{
    module.scope().raw(text);
}

/// Calls `Module::push_impl`, which appends the block to the items.
#[verifier::external_body]
pub(crate) fn module_push_impl(module: &mut codegen::Module, block: codegen::Impl)
    requires
        module_model(*old(module)) is Some,
        impl_model(block) is Some,
    ensures
        module_model(*final(module)) == Some(
            module_model(*old(module))->0.with_item(ItemModel::Impl(impl_model(block)->0)),
        ),
{
    module.push_impl(block);
}

/// Calls `Scope::new`: a scope that holds nothing.
#[verifier::external_body]
pub(crate) fn scope_new() -> (out: codegen::Scope)
    ensures
        scope_modules(out) == Some(Seq::<ModuleModel>::empty()),
{
    codegen::Scope::new()
}

/// Calls `Scope::get_module`, which finds the first module of that name,
/// if there is one.
#[verifier::external_body]
pub(crate) fn scope_get_module<'a>(scope: &'a codegen::Scope, name: &str) -> (out: Option<
    &'a codegen::Module,
>)
    requires
        scope_modules(*scope) is Some,
    ensures
        out is Some == has_module(scope_modules(*scope)->0, name@),
{
    scope.get_module(name)
}

/// Calls `Scope::push_module`, which appends the module. It panics where
/// the scope has a module of that name already.
#[verifier::external_body]
pub(crate) fn scope_push_module(scope: &mut codegen::Scope, module: codegen::Module)
    requires
        scope_modules(*old(scope)) is Some,
        module_model(module) is Some,
        !has_module(scope_modules(*old(scope))->0, module_model(module)->0.name),
    ensures
        scope_modules(*final(scope)) == Some(
            scope_modules(*old(scope))->0.push(module_model(module)->0),
        ),
{
    scope.push_module(module);
}

/// Calls `Scope::to_string`. The formatter reads nothing but the scope, so
/// the text is named by [`rendered`].
#[verifier::external_body]
pub(crate) fn scope_to_string(scope: &codegen::Scope) -> (out: String)
    requires
        scope_modules(*scope) is Some,
    ensures
        out@ == rendered(scope_modules(*scope)->0),
{
    scope.to_string()
}

} // verus!
