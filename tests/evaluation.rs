use pyoxidizer_env::bridge::{BorrowState, BridgeError, OpaqueHandle};
use pyoxidizer_env::context::{PathResolutionError, PyOxidizerEnvironmentContext};
use pyoxidizer_env::environment::{
    get_context, global_environment, print_line, starlark_print, starlark_set_build_path, Binding,
    BindingValue, Builtin, PyOxidizerContext, ScriptError, CONTEXT_NAME, ENVIRONMENT_CONTEXT_TYPE,
};
use pyoxidizer_env::state::{GetStateError, PyOxidizerBuildContext};

const TRIPLE: &str = "x86_64-unknown-linux-gnu";

fn context_at(config_path: &str) -> PyOxidizerEnvironmentContext {
    PyOxidizerEnvironmentContext::new(false, config_path, TRIPLE, TRIPLE, false, "0", &None).unwrap()
}

fn strings(items: &[&str]) -> Vec<String> {
    items.iter().map(|s| s.to_string()).collect()
}

fn text_of<'a>(bindings: &'a [Binding], name: &str) -> Option<&'a str> {
    bindings.iter().find(|b| b.name == name).and_then(|b| match &b.value {
        BindingValue::Text(t) => Some(t.as_str()),
        _ => None,
    })
}

#[test]
fn test_cwd() {
    let ctx = PyOxidizerEnvironmentContext::new(
        false,
        "/work/dir/project.star",
        TRIPLE,
        TRIPLE,
        false,
        "0",
        &Some("/work/dir".to_string()),
    )
    .unwrap();
    let env = global_environment(ctx);
    assert_eq!(text_of(&env.globals, "CWD"), Some("/work/dir"));
}

#[test]
fn test_build_target() {
    let env = global_environment(context_at("/proj/pyoxidizer.bzl"));
    assert_eq!(text_of(&env.globals, "BUILD_TARGET_TRIPLE"), Some(TRIPLE));
}

#[test]
fn test_print() {
    let mut env = global_environment(context_at("/proj/pyoxidizer.bzl"));
    let line = starlark_print(&mut env, &strings(&["hello, world"])).unwrap();
    assert_eq!(line, "hello, world");
}

#[test]
fn construct_from_absolute_config_path() {
    let ctx = context_at("/proj/cfg.star");
    assert_eq!(ctx.cwd, "/proj");
    assert_eq!(ctx.config_path, "/proj/cfg.star");
    assert_eq!(ctx.build_path, "/proj/build");
    assert_eq!(ctx.python_distributions_path, "/proj/build/python_distributions");
    assert_eq!(ctx.build_host_triple, TRIPLE);
    assert_eq!(ctx.build_target_triple, TRIPLE);
    assert_eq!(ctx.build_opt_level, "0");
    assert!(!ctx.verbose);
    assert!(!ctx.build_release);
}

#[test]
fn construct_keeps_flags() {
    let ctx = PyOxidizerEnvironmentContext::new(true, "/a/b.star", "h", "t", true, "3", &None).unwrap();
    assert!(ctx.verbose);
    assert!(ctx.build_release);
    assert_eq!(ctx.build_host_triple, "h");
    assert_eq!(ctx.build_target_triple, "t");
    assert_eq!(ctx.build_opt_level, "3");
}

#[test]
fn construct_relative_config_path_uses_current_dir() {
    let ctx = PyOxidizerEnvironmentContext::new(
        false,
        "sub/cfg.star",
        TRIPLE,
        TRIPLE,
        false,
        "0",
        &Some("/home/user".to_string()),
    )
    .unwrap();
    assert_eq!(ctx.cwd, "/home/user/sub");
    assert_eq!(ctx.build_path, "/home/user/sub/build");
    assert_eq!(ctx.python_distributions_path, "/home/user/sub/build/python_distributions");
}

#[test]
fn construct_relative_without_current_dir_fails() {
    let r = PyOxidizerEnvironmentContext::new(false, "sub/cfg.star", TRIPLE, TRIPLE, false, "0", &None);
    assert_eq!(r.err(), Some(PathResolutionError::CurrentDirectoryUnavailable));
}

#[test]
fn construct_without_parent_fails() {
    let r = PyOxidizerEnvironmentContext::new(false, "/", TRIPLE, TRIPLE, false, "0", &None);
    assert_eq!(r.err(), Some(PathResolutionError::NoParentDirectory));
    let r = PyOxidizerEnvironmentContext::new(false, "", TRIPLE, TRIPLE, false, "0", &None);
    assert_eq!(r.err(), Some(PathResolutionError::NoParentDirectory));
}

#[test]
fn absolute_dir_resolves_to_itself() {
    for current in [None, Some("/elsewhere".to_string())] {
        let r = PyOxidizerEnvironmentContext::resolve_working_dir("/proj/a", &current);
        assert_eq!(r, Ok("/proj/a".to_string()));
    }
}

#[test]
fn relative_dir_resolves_against_current_dir() {
    let r = PyOxidizerEnvironmentContext::resolve_working_dir("a/b", &Some("/c".to_string()));
    assert_eq!(r, Ok("/c/a/b".to_string()));
    let r = PyOxidizerEnvironmentContext::resolve_working_dir("a/b", &None);
    assert_eq!(r, Err(PathResolutionError::CurrentDirectoryUnavailable));
}

#[test]
fn set_build_path_relative_parent() {
    let mut ctx = context_at("/proj/cfg.star");
    assert_eq!(ctx.set_build_path("../out"), Ok(()));
    assert_eq!(ctx.build_path, "/out");
    assert_eq!(ctx.python_distributions_path, "/out/python_distributions");
    assert_eq!(ctx.cwd, "/proj");
}

#[test]
fn set_build_path_absolute_with_dots() {
    let mut ctx = context_at("/proj/cfg.star");
    assert_eq!(ctx.set_build_path("/a/./b/../c"), Ok(()));
    assert_eq!(ctx.build_path, "/a/c");
    assert_eq!(ctx.python_distributions_path, "/a/c/python_distributions");
}

#[test]
fn set_build_path_relative_plain() {
    let mut ctx = context_at("/proj/cfg.star");
    assert_eq!(ctx.set_build_path("out/dir"), Ok(()));
    assert_eq!(ctx.build_path, "/proj/out/dir");
    assert_eq!(ctx.python_distributions_path, "/proj/out/dir/python_distributions");
}

#[test]
fn set_build_path_above_root_stays_at_root() {
    let mut ctx = context_at("/proj/cfg.star");
    assert_eq!(ctx.set_build_path("../../../x"), Ok(()));
    assert_eq!(ctx.build_path, "/x");
}

fn build_context() -> PyOxidizerBuildContext {
    PyOxidizerBuildContext {
        host_triple: "host-triple".to_string(),
        target_triple: "target-triple".to_string(),
        release: true,
        opt_level: "2".to_string(),
        output_path: "/out/path".to_string(),
    }
}

#[test]
fn state_declared_keys() {
    let c = build_context();
    assert_eq!(c.get_state_string("host_triple"), Ok("host-triple"));
    assert_eq!(c.get_state_string("target_triple"), Ok("target-triple"));
    assert_eq!(c.get_state_string("opt_level"), Ok("2"));
    assert_eq!(c.get_state_bool("release"), Ok(true));
    assert_eq!(c.get_state_path("output_path"), Ok("/out/path"));
}

#[test]
fn state_undeclared_keys() {
    let c = build_context();
    assert_eq!(c.get_state_string("release"), Err(GetStateError::InvalidKey("release".to_string())));
    assert_eq!(c.get_state_string(""), Err(GetStateError::InvalidKey("".to_string())));
    assert_eq!(c.get_state_bool("host_triple"), Err(GetStateError::InvalidKey("host_triple".to_string())));
    assert_eq!(c.get_state_path("output"), Err(GetStateError::InvalidKey("output".to_string())));
}

#[test]
fn print_joins_with_single_spaces() {
    assert_eq!(print_line(&strings(&["a", "b", "3"])), "a b 3");
    assert_eq!(print_line(&strings(&[])), "");
    assert_eq!(print_line(&strings(&["x"])), "x");
    assert_eq!(print_line(&strings(&["", ""])), " ");
}

#[test]
fn print_through_environment() {
    let mut env = global_environment(context_at("/proj/cfg.star"));
    assert_eq!(starlark_print(&mut env, &strings(&["a", "b", "3"])), Ok("a b 3".to_string()));
    assert_eq!(starlark_print(&mut env, &strings(&[])), Ok(String::new()));
    assert_eq!(env.context.current_state(), BorrowState::Free);
}

#[test]
fn globals_in_order() {
    let env = global_environment(context_at("/proj/cfg.star"));
    let names: Vec<&str> = env.globals.iter().map(|b| b.name.as_str()).collect();
    assert_eq!(names, vec!["print", "set_build_path", "CWD", "CONFIG_PATH", "BUILD_TARGET_TRIPLE", "CONTEXT"]);
    assert_eq!(env.globals[0].value, BindingValue::Function(Builtin::Print));
    assert_eq!(env.globals[1].value, BindingValue::Function(Builtin::SetBuildPath));
    assert_eq!(text_of(&env.globals, "CONFIG_PATH"), Some("/proj/cfg.star"));
    assert_eq!(text_of(&env.globals, "CWD"), Some("/proj"));
    assert_eq!(env.globals[5].value, BindingValue::Context);
    assert_eq!(env.context.type_tag(), ENVIRONMENT_CONTEXT_TYPE);
}

#[test]
fn type_attributes_republish_globals() {
    let env = global_environment(context_at("/proj/cfg.star"));
    let names: Vec<&str> = env.type_attributes.iter().map(|b| b.name.as_str()).collect();
    assert_eq!(names, vec!["set_build_path", CONTEXT_NAME, "CWD", "CONFIG_PATH", "BUILD_TARGET_TRIPLE"]);
    for attr in &env.type_attributes {
        assert!(env.globals.iter().any(|g| g == attr));
    }
    assert_eq!(get_context(&env.type_attributes), Ok(()));
    assert_eq!(PyOxidizerContext::TYPE, "PyOxidizer");
    assert_eq!(PyOxidizerContext::default(), PyOxidizerContext {});
}

#[test]
fn missing_context_is_reported() {
    let mut env = global_environment(context_at("/proj/cfg.star"));
    env.type_attributes.clear();
    let expected = || ScriptError::Runtime {
        code: "PYOXIDIZER".to_string(),
        message: "Unable to resolve context (this should never happen)".to_string(),
        label: "".to_string(),
    };
    assert_eq!(get_context(&env.type_attributes), Err(expected()));
    assert_eq!(starlark_print(&mut env, &strings(&["x"])), Err(expected()));
    assert_eq!(starlark_set_build_path(&mut env, "/x"), Err(expected()));
}

#[test]
fn set_build_path_builtin() {
    let mut env = global_environment(context_at("/proj/cfg.star"));
    assert_eq!(starlark_set_build_path(&mut env, "../out"), Ok(()));
    assert_eq!(env.context.current_state(), BorrowState::Free);
    let ctx = env.context.into_inner();
    assert_eq!(ctx.build_path, "/out");
    assert_eq!(ctx.python_distributions_path, "/out/python_distributions");
}

#[test]
fn wrong_handle_type_is_rejected() {
    let mut env = global_environment(context_at("/proj/cfg.star"));
    env.context = OpaqueHandle::wrap("Other", context_at("/proj/cfg.star"));
    assert_eq!(starlark_print(&mut env, &strings(&["x"])), Err(ScriptError::IncorrectParameterType));
    assert_eq!(starlark_set_build_path(&mut env, "/x"), Err(ScriptError::IncorrectParameterType));
}

#[test]
fn second_acquisition_while_exclusive_fails() {
    let mut env = global_environment(context_at("/proj/cfg.star"));
    assert_eq!(env.context.downcast_mut(ENVIRONMENT_CONTEXT_TYPE), Ok(()));
    assert_eq!(env.context.downcast_mut(ENVIRONMENT_CONTEXT_TYPE), Err(BridgeError::AlreadyBorrowed));
    assert_eq!(env.context.downcast_ref(ENVIRONMENT_CONTEXT_TYPE), Err(BridgeError::AlreadyBorrowed));
    assert_eq!(starlark_set_build_path(&mut env, "/x"), Err(ScriptError::AlreadyBorrowed));
    assert_eq!(starlark_print(&mut env, &strings(&["x"])), Err(ScriptError::AlreadyBorrowed));
    env.context.release();
    assert_eq!(env.context.downcast_mut(ENVIRONMENT_CONTEXT_TYPE), Ok(()));
}

#[test]
fn shared_views_count_and_release() {
    let mut h = OpaqueHandle::wrap("T", 7u32);
    assert_eq!(h.downcast_ref("U"), Err(BridgeError::TypeMismatch));
    assert_eq!(h.downcast_ref("T"), Ok(()));
    assert_eq!(h.downcast_ref("T"), Ok(()));
    assert_eq!(h.current_state(), BorrowState::Shared(1));
    assert_eq!(h.downcast_mut("T"), Err(BridgeError::AlreadyBorrowed));
    assert_eq!(*h.get(), 7);
    h.release();
    assert!(h.is_borrowed());
    h.release();
    assert!(!h.is_borrowed());
    assert_eq!(h.downcast_mut("T"), Ok(()));
    *h.get_mut() = 9;
    h.release();
    assert_eq!(h.into_inner(), 9);
}

#[test]
fn error_messages() {
    assert_eq!(PathResolutionError::NoParentDirectory.message(), "resolving parent directory of config");
    assert!(!GetStateError::InvalidKey("k".to_string()).message().is_empty());
}
