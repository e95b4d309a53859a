use pksc::cli::build_file;
use pksc::options::{chunk_name, task_call, PkscOptions, TaskCall};
use pksc::stdlib::StdLib;
use pksc::types::LuaFunction;

#[test]
fn chunk_name_shows_the_script_path() {
    assert_eq!(chunk_name(&Some("build.lua".to_string())), "@[build.lua]");
    assert_eq!(chunk_name(&None), "@[unknown]");
}

#[test]
fn no_task_means_no_call() {
    assert!(matches!(task_call(None, Some(vec!["a".to_string()])), TaskCall::NoTask));
}

#[test]
fn task_with_arguments_is_called_with_them() {
    match task_call(Some("test".to_string()), Some(vec!["-v".to_string()])) {
        TaskCall::WithArguments { task, args } => {
            assert_eq!(task, "test");
            assert_eq!(args, vec!["-v".to_string()]);
        },
        other => panic!("unexpected {other:?}"),
    }
}

#[test]
fn task_without_arguments_runs_a_script() {
    match task_call(Some("release".to_string()), None) {
        TaskCall::Script { source } => assert_eq!(source, "runtask \"release\""),
        other => panic!("unexpected {other:?}"),
    }
}

#[test]
fn options_hold_what_the_build_needs() {
    let o = PkscOptions { task: None, args: None, enable_jit: true, filepath: Some("b.lua".to_string()) };
    assert_eq!(chunk_name(&o.filepath), "@[b.lua]");
    assert!(o.enable_jit);
}

#[test]
fn build_file_prefers_the_named_file() {
    assert_eq!(build_file(Some("x.lua".to_string()), true), "x.lua");
    assert_eq!(build_file(None, true), "build.lua");
    assert_eq!(build_file(None, false), "build.pksc");
}

#[test]
fn greet_says_hello() {
    assert_eq!(StdLib::greet("world"), "hello, world!");
}

#[test]
fn lua_function_holds_name_and_source() {
    let f = LuaFunction { name: "twice", func: "function(x) return 2 * x end" };
    assert_eq!(f.name, "twice");
    assert!(f.func.starts_with("function"));
}
