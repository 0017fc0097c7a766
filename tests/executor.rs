use rush::builtins::init_module;
use rush::builtins::BuiltinAction;
use rush::exec_result::ExecResult;
use rush::executor::plugin_error_result;
use rush::executor::prompt_text;
use rush::executor::render;
use rush::executor::repl_step;
use rush::executor::route_user_input;
use rush::executor::ReadEvent;
use rush::executor::ReplStep;
use rush::executor::Route;
use rush::lazy::get_plugin;
use rush::lazy::PluginError;
use rush::metadata::PluginMetadata;
use rush::registry::PluginRegistry;
use rush::text::split_whitespace;

fn words(ws: &[&str]) -> Vec<String> {
    ws.iter().map(|w| w.to_string()).collect()
}

#[test]
fn unknown_command() {
    let builtins = init_module();
    let mut plugins: PluginRegistry<u32> = PluginRegistry::new();
    plugins.add("pwd", PluginMetadata { name: "pwd".to_string(), path: "/d/pwd.so".to_string(), plugin: None });
    let route = route_user_input(&builtins, "foo");
    assert_eq!(route, Route::Plugin("foo".to_string(), vec![]));
    let err = get_plugin(&mut plugins, "foo", |_p: String| Some(1u32)).unwrap_err();
    let result = plugin_error_result("foo", err);
    assert_eq!(result, ExecResult::new(127, "foo: command not found"));
    assert_eq!(render(&result), Some("foo: command not found\n".to_string()));
}

#[test]
fn builtin_shadows_plugin() {
    let builtins = init_module();
    let mut plugins: PluginRegistry<u32> = PluginRegistry::new();
    plugins.add("exit", PluginMetadata { name: "exit".to_string(), path: "/d/exit.so".to_string(), plugin: None });
    let route = route_user_input(&builtins, "exit");
    assert_eq!(route, Route::Builtin("exit".to_string(), vec![]));
    if let Route::Builtin(name, args) = route {
        assert_eq!(builtins.execute(&name, &args), BuiltinAction::Exit(0));
    }
    assert!(!plugins.borrow_ref("exit").unwrap().is_loaded());
}

#[test]
fn blank_lines_go_nowhere() {
    let builtins = init_module();
    assert_eq!(route_user_input(&builtins, ""), Route::Empty);
    assert_eq!(route_user_input(&builtins, " \t  "), Route::Empty);
    assert_eq!(route_user_input(&builtins, "\n\u{3000}"), Route::Empty);
}

#[test]
fn words_and_arguments() {
    let builtins = init_module();
    assert_eq!(
        route_user_input(&builtins, "  ls   -l\t/tmp "),
        Route::Plugin("ls".to_string(), words(&["-l", "/tmp"]))
    );
    assert_eq!(
        route_user_input(&builtins, "plugin help pwd"),
        Route::Builtin("plugin".to_string(), words(&["help", "pwd"]))
    );
}

#[test]
fn split_on_whitespace_runs() {
    assert_eq!(split_whitespace("a  b\tc\n"), words(&["a", "b", "c"]));
    assert_eq!(split_whitespace("héllo wörld"), words(&["héllo", "wörld"]));
    assert_eq!(split_whitespace(""), Vec::<String>::new());
    assert_eq!(split_whitespace("x\u{A0}y"), words(&["x", "y"]));
}

#[test]
fn nonzero_results_are_rendered() {
    assert_eq!(render(&ExecResult::new(2, "bad")), Some("bad\n".to_string()));
    assert_eq!(render(&ExecResult::new(1, "")), Some("\n".to_string()));
    assert_eq!(render(&ExecResult::ok()), None);
    assert_eq!(render(&ExecResult::new(0, "ignored")), None);
}

#[test]
fn load_failures_are_reported() {
    let r = plugin_error_result("pwd", PluginError::LoadFailed);
    assert_eq!(r, ExecResult::new(101, "pwd: plugin failed to load"));
}

#[test]
fn prompt_falls_back() {
    assert_eq!(prompt_text(None), "$ ");
    assert_eq!(prompt_text(Some(ExecResult::new(1, "oops"))), "$ ");
    assert_eq!(prompt_text(Some(ExecResult::new(0, "user@host $ "))), "user@host $ ");
}

#[test]
fn repl_decisions() {
    assert_eq!(repl_step(ReadEvent::Line("ls".to_string())), ReplStep::Dispatch("ls".to_string()));
    assert_eq!(repl_step(ReadEvent::Interrupted), ReplStep::Cancelled);
    assert_eq!(repl_step(ReadEvent::Eof), ReplStep::Stop);
    assert_eq!(repl_step(ReadEvent::Failed), ReplStep::Stop);
}

#[test]
fn exec_result_constructors() {
    let r = ExecResult::new(64, "x");
    assert_eq!(r.code, 64);
    assert_eq!(r.message, "x");
    assert!(!r.is_success());
    assert!(ExecResult::ok().is_success());
    assert_eq!(ExecResult::ok().message, "");
}
