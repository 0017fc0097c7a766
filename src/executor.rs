use vstd::prelude::*;

use crate::builtins::BuiltinCommand;
use crate::builtins::BuiltinsRegistry;
use crate::exec_result::ExecResult;
use crate::exec_result::COMMAND_NOT_FOUND;
use crate::exec_result::EXIT_SUCCESS;
use crate::exec_result::PLUGIN_FAILURE;
use crate::lazy::PluginError;
use crate::text::concat;
use crate::text::is_ws;
use crate::text::split_from;
use crate::text::split_whitespace;
use crate::text::string_views;
use crate::text::words;

verus! {

/// Name of the plugin that renders the prompt.
pub const PROMPT_PLUGIN: &'static str = "rush-prompt";

/// Prompt shown when the prompt plugin is absent or fails.
pub const FALLBACK_PROMPT: &'static str = "$ ";

/// Where an input line goes, in terms of its views.
pub ghost enum RouteView {
    Empty,
    Builtin(Seq<char>, Seq<Seq<char>>),
    Plugin(Seq<char>, Seq<Seq<char>>),
}

/// Where an input line goes: nowhere, to a builtin, or to a plugin; with the command name
/// and its arguments.
#[derive(Debug, PartialEq, Eq)]
pub enum Route {
    Empty,
    Builtin(String, Vec<String>),
    Plugin(String, Vec<String>),
}

impl View for Route {
    type V = RouteView;

    open spec fn view(&self) -> RouteView {
        match self {
            Route::Empty => RouteView::Empty,
            Route::Builtin(n, a) => RouteView::Builtin(n@, string_views(a@)),
            Route::Plugin(n, a) => RouteView::Plugin(n@, string_views(a@)),
        }
    }
}

/// Where the line `line` goes, given the builtins registered: its first word names the
/// command, the other words are the arguments; a builtin of that name wins over a plugin.
pub open spec fn route_spec(builtins: Map<Seq<char>, BuiltinCommand>, line: Seq<char>) -> RouteView {
    let w = words(line);
    if w.len() == 0 {
        RouteView::Empty
    } else if builtins.contains_key(w[0]) {
        RouteView::Builtin(w[0], w.drop_first())
    } else {
        RouteView::Plugin(w[0], w.drop_first())
    }
}

/// Splits the line `input` into a command name and its arguments, and decides whether a
/// builtin or a plugin runs it.
pub fn route_user_input(builtins: &BuiltinsRegistry, input: &str) -> (r: Route)
    ensures
        r@ == route_spec(builtins@, input@),
{
    let mut args = split_whitespace(input);
    if args.len() == 0 {
        return Route::Empty;
    }
    let ghost w = string_views(args@);
    let cmd = args.remove(0);
    assert(string_views(args@) =~= w.drop_first());
    if builtins.contains(cmd.as_str()) {
        Route::Builtin(cmd, args)
    } else {
        Route::Plugin(cmd, args)
    }
}

/// The result of running a command `name` that no builtin carries and whose plugin could
/// not be had.
pub fn plugin_error_result(name: &str, err: PluginError) -> (r: ExecResult)
    ensures
        err == PluginError::NotFound ==> r.code == COMMAND_NOT_FOUND && r.message@ == name@
            + ": command not found"@,
        err == PluginError::LoadFailed ==> r.code == PLUGIN_FAILURE && r.message@ == name@
            + ": plugin failed to load"@,
{
    match err {
        PluginError::NotFound => ExecResult::with_message(COMMAND_NOT_FOUND, err.message(name)),
        PluginError::LoadFailed => ExecResult::with_message(PLUGIN_FAILURE, err.message(name)),
    }
}

/// What is written to standard error once a command has produced `result`: its message and
/// a newline when the code is not zero, nothing otherwise.
pub fn render(result: &ExecResult) -> (r: Option<String>)
    ensures
        result.code != EXIT_SUCCESS ==> (r matches Some(t) && t@ == result.message@ + "\n"@),
        result.code == EXIT_SUCCESS ==> r is None,
{
    if result.code != EXIT_SUCCESS {
        Some(concat(result.message.as_str(), "\n"))
    } else {
        None
    }
}

/// The prompt to show, given what running the prompt plugin returned, if it could be run:
/// its message when it succeeded, the fixed fallback otherwise.
pub fn prompt_text(outcome: Option<ExecResult>) -> (r: String)
    ensures
        (outcome matches Some(o) && o.code == EXIT_SUCCESS) ==> r@ == outcome->0.message@,
        !(outcome matches Some(o) && o.code == EXIT_SUCCESS) ==> r@ == FALLBACK_PROMPT@,
{
    match outcome {
        Some(o) => if o.code == EXIT_SUCCESS {
            o.message
        } else {
            FALLBACK_PROMPT.to_owned()
        },
        None => FALLBACK_PROMPT.to_owned(),
    }
}

/// What reading one line from the terminal gave.
#[derive(Debug, PartialEq, Eq)]
pub enum ReadEvent {
    /// A line was read.
    Line(String),
    /// The user cancelled the read.
    Interrupted,
    /// The input ended.
    Eof,
    /// Reading failed otherwise.
    Failed,
}

/// What the read-eval loop does next.
#[derive(Debug, PartialEq, Eq)]
pub enum ReplStep {
    /// Record the line in the history, then dispatch it.
    Dispatch(String),
    /// Print the cancellation marker and read again.
    Cancelled,
    /// Leave the loop.
    Stop,
}

/// The loop's decision on one read: a line is dispatched, a cancelled read is reported and
/// the loop goes on, the end of input or a read error ends it.
pub fn repl_step(event: ReadEvent) -> (r: ReplStep)
    ensures
        event matches ReadEvent::Line(l) ==> r == ReplStep::Dispatch(l),
        event == ReadEvent::Interrupted ==> r == ReplStep::Cancelled,
        event == ReadEvent::Eof ==> r == ReplStep::Stop,
        event == ReadEvent::Failed ==> r == ReplStep::Stop,
{
    match event {
        ReadEvent::Line(l) => ReplStep::Dispatch(l),
        ReadEvent::Interrupted => ReplStep::Cancelled,
        ReadEvent::Eof => ReplStep::Stop,
        ReadEvent::Failed => ReplStep::Stop,
    }
}

/// Words of a blank stretch: reading whitespace only adds no word.
proof fn lemma_blank_split(s: Seq<char>, i: int)
    requires
        0 <= i <= s.len(),
        forall|j: int| 0 <= j < s.len() ==> is_ws(#[trigger] s[j]),
    ensures
        split_from(s, i, Seq::empty()) == Seq::<Seq<char>>::empty(),
    decreases s.len() - i,
{
    if i < s.len() {
        lemma_blank_split(s, i + 1);
        assert(Seq::<Seq<char>>::empty() + Seq::<Seq<char>>::empty() =~= Seq::<
            Seq<char>,
        >::empty());
    }
}

/// Empty input is neutral: a line made of whitespace only, the empty line included, goes
/// nowhere, so nothing runs and no result is rendered.
pub proof fn lemma_blank_input(builtins: Map<Seq<char>, BuiltinCommand>, line: Seq<char>)
    requires
        forall|j: int| 0 <= j < line.len() ==> is_ws(#[trigger] line[j]),
    ensures
        route_spec(builtins, line) == RouteView::Empty,
{
    lemma_blank_split(line, 0);
}

/// Dispatch precedence: a command name that a builtin carries goes to the builtin, whatever
/// plugins are registered under the same name.
pub proof fn lemma_builtin_precedence(builtins: Map<Seq<char>, BuiltinCommand>, line: Seq<char>)
    requires
        words(line).len() > 0,
        builtins.contains_key(words(line)[0]),
    ensures
        route_spec(builtins, line) == RouteView::Builtin(words(line)[0], words(line).drop_first()),
{
}

} // verus!
