use vstd::prelude::*;

verus! {

/// The command completed.
pub const EXIT_SUCCESS: u8 = 0;

/// Generic failure.
pub const EXIT_FAILURE: u8 = 1;

/// Wrong number or kind of arguments.
pub const INVALID_ARGS: u8 = 2;

/// The named target is a shell builtin, not a plugin.
pub const NOT_A_PLUGIN: u8 = 64;

/// No plugin of that name is registered.
pub const PLUGIN_NOT_FOUND: u8 = 65;

/// A required argument is missing.
pub const MISSING_ARGUMENT: u8 = 100;

/// The plugin could not be loaded or dispatched.
pub const PLUGIN_FAILURE: u8 = 101;

/// The introspection request is not implemented.
pub const UNIMPLEMENTED: u8 = 102;

/// Neither a builtin nor a plugin carries the command name.
pub const COMMAND_NOT_FOUND: u8 = 127;

/// An argument could not be parsed.
pub const ARG_PARSE_FAILURE: u8 = 255;

/// Outcome of one command invocation: a status code (0 is success) and a message.
#[derive(Clone, Debug, PartialEq, Eq)]
pub struct ExecResult {
    pub code: u8,
    pub message: String,
}

/// Descriptive record that a plugin reports about itself.
#[derive(Clone, Debug, PartialEq, Eq)]
pub struct CommandInfo {
    pub name: String,
    pub description: String,
    pub version: String,
    pub help: String,
}

impl ExecResult {
    /// A result with the given code and message.
    pub fn new(code: u8, message: &str) -> (r: ExecResult)
        ensures
            r.code == code,
            r.message@ == message@,
    {
        ExecResult { code, message: message.to_owned() }
    }

    /// A successful result with an empty message.
    pub fn ok() -> (r: ExecResult)
        ensures
            r.code == EXIT_SUCCESS,
            r.message@ == Seq::<char>::empty(),
    {
        ExecResult { code: EXIT_SUCCESS, message: String::new() }
    }

    /// A result with the given code whose message is taken over as it is.
    pub fn with_message(code: u8, message: String) -> (r: ExecResult)
        ensures
            r.code == code,
            r.message == message,
    {
        ExecResult { code, message }
    }

    /// Whether the command completed.
    pub fn is_success(&self) -> (r: bool)
        ensures
            r == (self.code == EXIT_SUCCESS),
    {
        self.code == EXIT_SUCCESS
    }
}

} // verus!
