//! The global bindings of a configuration's script environment, the
//! type-attribute surface that republishes some of them, and the built-in
//! operations that reach the evaluation context through them.

use vstd::prelude::*;
use vstd::string::StringExecFns;
use crate::bridge::{BorrowState, BridgeError, OpaqueHandle};
use crate::context::{anchored_path, PyOxidizerEnvironmentContext, PathResolutionError};
use crate::paths::{dedot_path, is_relative_path};

verus! {

broadcast use vstd::string::to_string_from_display_ensures_for_str;

/// Type name under which the evaluation context is wrapped.
pub const ENVIRONMENT_CONTEXT_TYPE: &'static str = "EnvironmentContext";

/// Name under which the wrapped evaluation context is bound.
pub const CONTEXT_NAME: &'static str = "CONTEXT";

/// Starlark type holding context for PyOxidizer; its type attributes
/// republish selected globals.
#[derive(Debug, PartialEq, Eq, Structural)]
pub struct PyOxidizerContext {}

impl PyOxidizerContext {
    /// Type name of the type-attribute surface.
    pub const TYPE: &'static str = "PyOxidizer";
}

impl Default for PyOxidizerContext {
    fn default() -> (r: Self)
        ensures
            r == (PyOxidizerContext {}),
    {
        PyOxidizerContext {}
    }
}

/// A failure that a built-in reports to the script.
#[derive(Debug, PartialEq, Eq)]
pub enum ScriptError {
    /// A value was not of the type the operation needs.
    IncorrectParameterType,
    /// The value is already being viewed.
    AlreadyBorrowed,
    /// A failure with an error code, a message and the operation's label.
    Runtime { code: String, message: String, label: String },
}

/// The built-in operations of this environment.
#[derive(Debug, PartialEq, Eq, Structural)]
pub enum Builtin {
    /// `print(*args)`: writes its arguments as one line.
    Print,
    /// `set_build_path(path)`: overrides the build path.
    SetBuildPath,
}

/// What a name is bound to.
#[derive(Debug, PartialEq, Eq)]
pub enum BindingValue {
    /// A string constant.
    Text(String),
    /// A built-in operation.
    Function(Builtin),
    /// The wrapped evaluation context.
    Context,
}

/// A name and what it is bound to.
#[derive(Debug, PartialEq, Eq)]
pub struct Binding {
    pub name: String,
    pub value: BindingValue,
}

/// Whether a binding binds `name` to the string constant `text`.
pub open spec fn binds_text(b: Binding, name: Seq<char>, text: Seq<char>) -> bool {
    b.name@ == name && (b.value matches BindingValue::Text(t) && t@ == text)
}

/// Whether a binding binds `name` to `value`, which is not a constant.
pub open spec fn binds(b: Binding, name: Seq<char>, value: BindingValue) -> bool {
    b.name@ == name && b.value == value
}

/// The environment of one configuration evaluation.
pub struct GlobalEnvironment {
    /// The global bindings, in the order they were made.
    pub globals: Vec<Binding>,
    /// The type attributes of `PyOxidizerContext::TYPE`: selected globals
    /// republished for code that holds only this surface.
    pub type_attributes: Vec<Binding>,
    /// The wrapped evaluation context that `CONTEXT_NAME` stands for.
    pub context: OpaqueHandle<PyOxidizerEnvironmentContext>,
}

/// The globals bound for an evaluation context, in order: the built-ins,
/// the constants, then the context itself.
pub open spec fn globals_of(g: Seq<Binding>, ctx: PyOxidizerEnvironmentContext) -> bool {
    &&& g.len() == 6
    &&& binds(g[0], "print"@, BindingValue::Function(Builtin::Print))
    &&& binds(g[1], "set_build_path"@, BindingValue::Function(Builtin::SetBuildPath))
    &&& binds_text(g[2], "CWD"@, ctx.cwd@)
    &&& binds_text(g[3], "CONFIG_PATH"@, ctx.config_path@)
    &&& binds_text(g[4], "BUILD_TARGET_TRIPLE"@, ctx.build_target_triple@)
    &&& binds(g[5], "CONTEXT"@, BindingValue::Context)
}

/// The type attributes republished for an evaluation context.
pub open spec fn type_attributes_of(a: Seq<Binding>, ctx: PyOxidizerEnvironmentContext) -> bool {
    &&& a.len() == 5
    &&& binds(a[0], "set_build_path"@, BindingValue::Function(Builtin::SetBuildPath))
    &&& binds(a[1], "CONTEXT"@, BindingValue::Context)
    &&& binds_text(a[2], "CWD"@, ctx.cwd@)
    &&& binds_text(a[3], "CONFIG_PATH"@, ctx.config_path@)
    &&& binds_text(a[4], "BUILD_TARGET_TRIPLE"@, ctx.build_target_triple@)
}

/// Whether two bindings bind the same name to the same value.
pub open spec fn same_binding(a: Binding, b: Binding) -> bool {
    &&& a.name@ == b.name@
    &&& match (a.value, b.value) {
        (BindingValue::Text(s), BindingValue::Text(t)) => s@ == t@,
        (BindingValue::Text(_), _) => false,
        (_, BindingValue::Text(_)) => false,
        (x, y) => x == y,
    }
}

/// Every type attribute republishes a global binding: the same name bound
/// to the same value.
pub proof fn lemma_type_attributes_are_globals(
    g: Seq<Binding>,
    a: Seq<Binding>,
    ctx: PyOxidizerEnvironmentContext,
)
    requires
        globals_of(g, ctx),
        type_attributes_of(a, ctx),
    ensures
        forall|i: int| 0 <= i < a.len() ==> exists|j: int| 0 <= j < g.len() && same_binding(#[trigger] a[i], g[j]),
{
    assert forall|i: int| 0 <= i < a.len() implies exists|j: int| 0 <= j < g.len() && same_binding(#[trigger] a[i], g[j]) by {
        let j = if i == 0 { 1int } else if i == 1 { 5int } else { i };
        assert(same_binding(a[i], g[j]));
    }
}

/// Whether some binding binds `name` to the evaluation context.
pub open spec fn has_context(bs: Seq<Binding>) -> bool {
    exists|i: int| 0 <= i < bs.len() && binds(#[trigger] bs[i], "CONTEXT"@, BindingValue::Context)
}

/// The context always resolves through the type attributes of a built
/// environment.
pub proof fn lemma_built_environment_resolves_context(a: Seq<Binding>, ctx: PyOxidizerEnvironmentContext)
    requires
        type_attributes_of(a, ctx),
    ensures
        has_context(a),
{
    assert(binds(a[1], "CONTEXT"@, BindingValue::Context));
}

/// Text arguments joined by single spaces.
pub open spec fn spaced(args: Seq<Seq<char>>) -> Seq<char>
    decreases args.len(),
{
    if args.len() == 0 {
        Seq::empty()
    } else if args.len() == 1 {
        args[0]
    } else {
        spaced(args.drop_last()) + " "@ + args.last()
    }
}

/// The text of each argument.
pub open spec fn texts(args: Seq<String>) -> Seq<Seq<char>> {
    args.map_values(|s: String| s@)
}

fn text_binding(name: &str, text: &String) -> (r: Binding)
    ensures
        binds_text(r, name@, text@),
{
    Binding { name: name.to_string(), value: BindingValue::Text(text.clone()) }
}

fn function_binding(name: &str, f: Builtin) -> (r: Binding)
    ensures
        binds(r, name@, BindingValue::Function(f)),
{
    Binding { name: name.to_string(), value: BindingValue::Function(f) }
}

fn context_binding() -> (r: Binding)
    ensures
        binds(r, "CONTEXT"@, BindingValue::Context),
{
    Binding { name: CONTEXT_NAME.to_string(), value: BindingValue::Context }
}

/// Builds the environment for evaluating a configuration with `context`:
/// the built-ins, the constants `CWD`, `CONFIG_PATH` and
/// `BUILD_TARGET_TRIPLE`, the wrapped context, and the republished type
/// attributes.
pub fn global_environment(context: PyOxidizerEnvironmentContext) -> (r: GlobalEnvironment)
    ensures
        globals_of(r.globals@, context),
        type_attributes_of(r.type_attributes@, context),
        r.context.tag() == ENVIRONMENT_CONTEXT_TYPE@,
        r.context.inner() == context,
        r.context.borrow_state() == BorrowState::Free,
{
    let mut globals: Vec<Binding> = Vec::new();
    globals.push(function_binding("print", Builtin::Print));
    globals.push(function_binding("set_build_path", Builtin::SetBuildPath));
    globals.push(text_binding("CWD", &context.cwd));
    globals.push(text_binding("CONFIG_PATH", &context.config_path));
    globals.push(text_binding("BUILD_TARGET_TRIPLE", &context.build_target_triple));
    globals.push(context_binding());

    let mut type_attributes: Vec<Binding> = Vec::new();
    type_attributes.push(function_binding("set_build_path", Builtin::SetBuildPath));
    type_attributes.push(context_binding());
    type_attributes.push(text_binding("CWD", &context.cwd));
    type_attributes.push(text_binding("CONFIG_PATH", &context.config_path));
    type_attributes.push(text_binding("BUILD_TARGET_TRIPLE", &context.build_target_triple));

    let handle = OpaqueHandle::wrap(ENVIRONMENT_CONTEXT_TYPE, context);
    GlobalEnvironment { globals, type_attributes, context: handle }
}

fn context_unresolved() -> (r: ScriptError)
    ensures
        r matches ScriptError::Runtime { code, message, label } && code@ == "PYOXIDIZER"@
            && message@ == "Unable to resolve context (this should never happen)"@ && label@ == ""@,
{
    ScriptError::Runtime {
        code: "PYOXIDIZER".to_string(),
        message: "Unable to resolve context (this should never happen)".to_string(),
        label: "".to_string(),
    }
}

fn is_context_binding(b: &Binding) -> (r: bool)
    ensures
        r == binds(*b, "CONTEXT"@, BindingValue::Context),
{
    b.name.clone() == CONTEXT_NAME.to_string() && matches!(b.value, BindingValue::Context)
}

/// Resolves the evaluation context through the type attributes. Fails only
/// when no attribute stands for it, which a correctly built environment
/// never shows.
pub fn get_context(type_attributes: &Vec<Binding>) -> (r: Result<(), ScriptError>)
    ensures
        r is Ok <==> has_context(type_attributes@),
        r is Err ==> (r matches Err(ScriptError::Runtime { code, .. }) && code@ == "PYOXIDIZER"@),
{
    let mut i: usize = 0;
    while i < type_attributes.len()
        invariant
            0 <= i <= type_attributes@.len(),
            forall|j: int| 0 <= j < i ==> !binds(#[trigger] type_attributes@[j], "CONTEXT"@, BindingValue::Context),
        decreases type_attributes@.len() - i,
    {
        if is_context_binding(&type_attributes[i]) {
            return Ok(());
        }
        i += 1;
    }
    Err(context_unresolved())
}

/// The line that `print` writes for its arguments' text: the arguments
/// separated by single spaces.
pub fn print_line(args: &Vec<String>) -> (r: String)
    ensures
        r@ == spaced(texts(args@)),
{
    let mut line = String::new();
    let mut i: usize = 0;
    while i < args.len()
        invariant
            0 <= i <= args@.len(),
            line@ == spaced(texts(args@).take(i as int)),
        decreases args@.len() - i,
    {
        proof {
            let t = texts(args@);
            assert(t.take(i as int + 1).drop_last() =~= t.take(i as int));
        }
        if i > 0 {
            line.append(" ");
        }
        line.append(args[i].as_str());
        i += 1;
    }
    proof {
        assert(texts(args@).take(args@.len() as int) =~= texts(args@));
    }
    line
}

/// `print(*args)`: resolves the evaluation context for reading and gives
/// the line to write for the arguments' text. The context is left as it was.
pub fn starlark_print(env: &mut GlobalEnvironment, args: &Vec<String>) -> (r: Result<String, ScriptError>)
    ensures
        final(env).globals == old(env).globals,
        final(env).type_attributes == old(env).type_attributes,
        final(env).context.tag() == old(env).context.tag(),
        final(env).context.inner() == old(env).context.inner(),
        final(env).context.borrow_state() == old(env).context.borrow_state(),
        !has_context(old(env).type_attributes@) ==> (r matches Err(ScriptError::Runtime { code, .. })
            && code@ == "PYOXIDIZER"@),
        has_context(old(env).type_attributes@) && old(env).context.tag() != ENVIRONMENT_CONTEXT_TYPE@
            ==> r == Err::<String, ScriptError>(ScriptError::IncorrectParameterType),
        has_context(old(env).type_attributes@) && old(env).context.tag() == ENVIRONMENT_CONTEXT_TYPE@
            ==> match old(env).context.borrow_state() {
                BorrowState::Exclusive => r == Err::<String, ScriptError>(ScriptError::AlreadyBorrowed),
                BorrowState::Shared(n) => n < usize::MAX ==> (r matches Ok(line) && line@ == spaced(texts(args@))),
                BorrowState::Free => r matches Ok(line) && line@ == spaced(texts(args@)),
            },
{
    match get_context(&env.type_attributes) {
        Ok(()) => {},
        Err(e) => { return Err(e); },
    }
    match env.context.downcast_ref(ENVIRONMENT_CONTEXT_TYPE) {
        Ok(()) => {},
        Err(BridgeError::TypeMismatch) => { return Err(ScriptError::IncorrectParameterType); },
        Err(BridgeError::AlreadyBorrowed) => { return Err(ScriptError::AlreadyBorrowed); },
    }
    let line = print_line(args);
    env.context.release();
    Ok(line)
}

fn build_path_failure(e: &PathResolutionError) -> (r: ScriptError)
    ensures
        r matches ScriptError::Runtime { code, label, .. } && code@ == "PYOXIDIZER_BUILD"@
            && label@ == "set_build_path()"@,
{
    ScriptError::Runtime {
        code: "PYOXIDIZER_BUILD".to_string(),
        message: e.message(),
        label: "set_build_path()".to_string(),
    }
}

/// `set_build_path(path)`: resolves the evaluation context for writing and
/// sets its build path. A path-resolution failure is reported under the
/// operation's label and leaves the context as it was.
pub fn starlark_set_build_path(env: &mut GlobalEnvironment, path: &str) -> (r: Result<(), ScriptError>)
    requires
        old(env).context.inner().wf(),
    ensures
        final(env).globals == old(env).globals,
        final(env).type_attributes == old(env).type_attributes,
        final(env).context.tag() == old(env).context.tag(),
        final(env).context.borrow_state() == old(env).context.borrow_state(),
        final(env).context.inner().wf(),
        final(env).context.inner().cwd == old(env).context.inner().cwd,
        final(env).context.inner().config_path == old(env).context.inner().config_path,
        final(env).context.inner().build_target_triple == old(env).context.inner().build_target_triple,
        !has_context(old(env).type_attributes@) ==> (r matches Err(ScriptError::Runtime { code, .. })
            && code@ == "PYOXIDIZER"@),
        has_context(old(env).type_attributes@) && old(env).context.tag() != ENVIRONMENT_CONTEXT_TYPE@
            ==> r == Err::<(), ScriptError>(ScriptError::IncorrectParameterType),
        has_context(old(env).type_attributes@) && old(env).context.tag() == ENVIRONMENT_CONTEXT_TYPE@
            && old(env).context.borrow_state() != BorrowState::Free
            ==> r == Err::<(), ScriptError>(ScriptError::AlreadyBorrowed),
        has_context(old(env).type_attributes@) && old(env).context.tag() == ENVIRONMENT_CONTEXT_TYPE@
            && old(env).context.borrow_state() == BorrowState::Free
            && !is_relative_path(anchored_path(old(env).context.inner().cwd@, path@))
            ==> (r is Ok && final(env).context.inner().build_path@
                == dedot_path(anchored_path(old(env).context.inner().cwd@, path@))),
        has_context(old(env).type_attributes@) && old(env).context.tag() == ENVIRONMENT_CONTEXT_TYPE@
            && old(env).context.borrow_state() == BorrowState::Free && r is Err
            ==> (r matches Err(ScriptError::Runtime { code, label, .. }) && code@ == "PYOXIDIZER_BUILD"@
                && label@ == "set_build_path()"@),
        r is Err ==> final(env).context.inner() == old(env).context.inner(),
{
    match get_context(&env.type_attributes) {
        Ok(()) => {},
        Err(e) => { return Err(e); },
    }
    match env.context.downcast_mut(ENVIRONMENT_CONTEXT_TYPE) {
        Ok(()) => {},
        Err(BridgeError::TypeMismatch) => { return Err(ScriptError::IncorrectParameterType); },
        Err(BridgeError::AlreadyBorrowed) => { return Err(ScriptError::AlreadyBorrowed); },
    }
    let result = env.context.get_mut().set_build_path(path);
    env.context.release();
    match result {
        Ok(()) => Ok(()),
        Err(e) => Err(build_path_failure(&e)),
    }
}

} // verus!
