use rush::builtins::init_module;
use rush::builtins::plugin_not_found;
use rush::builtins::BuiltinAction;
use rush::builtins::BuiltinCommand;
use rush::builtins::BuiltinError;
use rush::builtins::BuiltinsRegistry;
use rush::builtins::PluginField;
use rush::builtins::EXIT_HELP;
use rush::builtins::HELP_HELP;
use rush::builtins::PLUGIN_HELP;
use rush::builtins::VERSION;
use rush::exec_result::ExecResult;

fn args(words: &[&str]) -> Vec<String> {
    words.iter().map(|w| w.to_string()).collect()
}

fn finish(code: u8, message: &str) -> BuiltinAction {
    BuiltinAction::Finish(ExecResult::new(code, message))
}

#[test]
fn registry_holds_exit_and_plugin() {
    let reg = init_module();
    assert!(reg.contains("exit"));
    assert!(reg.contains("plugin"));
    assert!(!reg.contains("pwd"));
    assert_eq!(reg.get_command("exit"), Some(BuiltinCommand::Exit));
    assert_eq!(reg.get_command("plugin"), Some(BuiltinCommand::Plugin));
}

#[test]
fn insert_refuses_taken_names() {
    let mut reg = BuiltinsRegistry::new();
    assert_eq!(reg.insert_command("exit", BuiltinCommand::Exit), Ok(()));
    assert_eq!(
        reg.insert_command("exit", BuiltinCommand::Plugin),
        Err(BuiltinError::AlreadyExists)
    );
    assert_eq!(reg.get_command("exit"), Some(BuiltinCommand::Exit));
}

#[test]
fn unknown_builtin() {
    let reg = init_module();
    assert_eq!(reg.execute("cd", &args(&[])), finish(1, "cd: builtin not found"));
}

#[test]
fn exit_without_argument_exits_zero() {
    let reg = init_module();
    assert_eq!(reg.execute("exit", &args(&[])), BuiltinAction::Exit(0));
}

#[test]
fn exit_with_code() {
    let reg = init_module();
    assert_eq!(reg.execute("exit", &args(&["127"])), BuiltinAction::Exit(127));
    assert_eq!(reg.execute("exit", &args(&["+3"])), BuiltinAction::Exit(3));
    assert_eq!(reg.execute("exit", &args(&["255"])), BuiltinAction::Exit(255));
    assert_eq!(reg.execute("exit", &args(&["007"])), BuiltinAction::Exit(7));
}

#[test]
fn exit_with_bad_code() {
    let reg = init_module();
    assert_eq!(
        reg.execute("exit", &args(&["256"])),
        finish(255, "exit: expected u8, found 256")
    );
    assert_eq!(
        reg.execute("exit", &args(&["-1"])),
        finish(255, "exit: expected u8, found -1")
    );
    assert_eq!(
        reg.execute("exit", &args(&["+"])),
        finish(255, "exit: expected u8, found +")
    );
}

#[test]
fn exit_with_too_many_arguments() {
    let reg = init_module();
    assert_eq!(
        reg.execute("exit", &args(&["1", "2"])),
        finish(2, "exit: expected [0-1] argument, found 2")
    );
    let many: Vec<String> = (0..12).map(|i| i.to_string()).collect();
    assert_eq!(
        reg.execute("exit", &many),
        finish(2, "exit: expected [0-1] argument, found 12")
    );
}

#[test]
fn exit_help_and_version() {
    let reg = init_module();
    assert_eq!(reg.execute("exit", &args(&["-h"])), BuiltinAction::Print(EXIT_HELP.to_string()));
    assert_eq!(reg.execute("exit", &args(&["-v"])), BuiltinAction::Print(VERSION.to_string()));
}

#[test]
fn plugin_help_of_a_plugin() {
    let reg = init_module();
    assert_eq!(
        reg.execute("plugin", &args(&["help", "pwd"])),
        BuiltinAction::Introspect(PluginField::Help, "pwd".to_string())
    );
    assert_eq!(
        reg.execute("plugin", &args(&["help", "--", "pwd"])),
        BuiltinAction::Introspect(PluginField::Help, "pwd".to_string())
    );
    assert_eq!(
        reg.execute("plugin", &args(&["description", "pwd"])),
        BuiltinAction::Introspect(PluginField::Desc, "pwd".to_string())
    );
    assert_eq!(
        reg.execute("plugin", &args(&["version", "pwd"])),
        BuiltinAction::Introspect(PluginField::Version, "pwd".to_string())
    );
}

#[test]
fn plugin_help_of_a_builtin() {
    let reg = init_module();
    assert_eq!(
        reg.execute("plugin", &args(&["help", "exit"])),
        finish(64, "plugin-help: exit is a shell builtin")
    );
}

#[test]
fn plugin_help_of_a_missing_plugin() {
    let r = plugin_not_found(PluginField::Help, "ghost");
    assert_eq!(r.code, 65);
    assert_eq!(r.message, "plugin-help: ghost plugin not found");
}

#[test]
fn plugin_sub_command_arguments() {
    let reg = init_module();
    assert_eq!(
        reg.execute("plugin", &args(&["help"])),
        finish(2, "plugin-help: missing argument")
    );
    assert_eq!(
        reg.execute("plugin", &args(&["desc", "--"])),
        finish(2, "plugin-desc: missing argument")
    );
    assert_eq!(
        reg.execute("plugin", &args(&["version", "a", "b"])),
        finish(2, "plugin-version: too many arguments")
    );
    assert_eq!(
        reg.execute("plugin", &args(&["help", "--help"])),
        BuiltinAction::Print(HELP_HELP.to_string())
    );
}

#[test]
fn plugin_top_level_options() {
    let reg = init_module();
    assert_eq!(
        reg.execute("plugin", &args(&[])),
        finish(65, "plugin: missing sub-command")
    );
    assert_eq!(
        reg.execute("plugin", &args(&["--help"])),
        BuiltinAction::Print(PLUGIN_HELP.to_string())
    );
    assert_eq!(
        reg.execute("plugin", &args(&["-v"])),
        BuiltinAction::Print(VERSION.to_string())
    );
    assert_eq!(
        reg.execute("plugin", &args(&["-h", "x"])),
        finish(2, "plugin: too many arguments")
    );
    assert_eq!(
        reg.execute("plugin", &args(&["reload", "pwd"])),
        finish(65, "plugin: reload sub-command not found")
    );
}
