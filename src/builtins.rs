use vstd::prelude::*;

use crate::exec_result::ExecResult;
use crate::exec_result::ARG_PARSE_FAILURE;
use crate::exec_result::EXIT_FAILURE;
use crate::exec_result::INVALID_ARGS;
use crate::exec_result::NOT_A_PLUGIN;
use crate::exec_result::PLUGIN_NOT_FOUND;
use crate::parse::parse_u8;
use crate::parse::parse_u8_spec;
use crate::text::concat;
use crate::text::decimal;
use crate::text::push_decimal;
use crate::text::string_views;

verus! {

/// Version reported by the builtins.
pub const VERSION: &'static str = "0.1.0";

/// Usage of the `exit` builtin.
pub const EXIT_HELP: &'static str = "Exit from current shell with code.\nexit is a shell built-in\n\nUsage: exit [-h | -v | <code>]\n\nOptions:\n  -h, --help: Prints this help message\n  -v, --version: Prints the version\n\nExamples:\n  exit -h\n  exit -v\n  exit 127";

/// Usage of the `plugin` builtin.
pub const PLUGIN_HELP: &'static str = "Usage: plugin [sub-command] [options]\n\nSub-commands:\n  desc, description   Display the description of the plugin.\n  help                Show help information for the plugin.\n  version             Show the version of the plugin.\n\nOptions:\n  -h, --help          Show this help message.\n  -v, --version       Display the current version of the plugin.\n\nNote: Replace [sub-command] with one of the available sub-commands.";

/// Usage of `plugin desc`.
pub const DESC_HELP: &'static str = "Usage: plugin desc [--] [plugin-name]\n\nDisplays the description of a specific plugin.\n\nArguments:\n  plugin-name       The name of the plugin to describe.\n\nOptions:\n  --help            Show this help message.\n\nExample:\n  plugin desc my_plugin";

/// Usage of `plugin help`.
pub const HELP_HELP: &'static str = "Usage: plugin help [--] [plugin-name]\n\nDisplays help information for a specific plugin.\n\nArguments:\n  plugin-name       The name of the plugin to print help.\n\nOptions:\n  --help            Show this help message.\n\nExample:\n  plugin help my_plugin";

/// Usage of `plugin version`.
pub const VERSION_HELP: &'static str = "Usage: plugin version [--] [plugin-name]\n\nDisplays version of a specific plugin.\n\nArguments:\n  plugin-name       The name of the plugin to get version.\n\nOptions:\n  --help            Show this help message.\n\nExample:\n  plugin version my_plugin";

/// The commands implemented by the shell itself.
#[derive(Clone, Copy, Debug, PartialEq, Eq, Structural)]
pub enum BuiltinCommand {
    /// `exit [code]`: leave the shell.
    Exit,
    /// `plugin <desc|description|help|version> [--] <name>`: report on a plugin.
    Plugin,
}

/// The plugin getter that an introspection request reaches.
#[derive(Clone, Copy, Debug, PartialEq, Eq, Structural)]
pub enum PluginField {
    Desc,
    Help,
    Version,
}

impl PluginField {
    /// The sub-command that asks for this field.
    pub open spec fn name_spec(self) -> Seq<char> {
        match self {
            PluginField::Desc => "desc"@,
            PluginField::Help => "help"@,
            PluginField::Version => "version"@,
        }
    }

    /// The usage text of the sub-command that asks for this field.
    pub open spec fn usage_spec(self) -> Seq<char> {
        match self {
            PluginField::Desc => DESC_HELP@,
            PluginField::Help => HELP_HELP@,
            PluginField::Version => VERSION_HELP@,
        }
    }

    /// The sub-command that asks for this field.
    pub fn sub_command(&self) -> (r: &'static str)
        ensures
            r@ == self.name_spec(),
    {
        match self {
            PluginField::Desc => "desc",
            PluginField::Help => "help",
            PluginField::Version => "version",
        }
    }

    /// The usage text of the sub-command that asks for this field.
    pub fn usage(&self) -> (r: &'static str)
        ensures
            r@ == self.usage_spec(),
    {
        match self {
            PluginField::Desc => DESC_HELP,
            PluginField::Help => HELP_HELP,
            PluginField::Version => VERSION_HELP,
        }
    }
}

/// What running a builtin stands for, in terms of its views.
pub ghost enum ActionView {
    Finish(u8, Seq<char>),
    Exit(u8),
    Print(Seq<char>),
    Introspect(PluginField, Seq<char>),
}

/// What the shell has to do to complete a builtin.
#[derive(Debug, PartialEq, Eq)]
pub enum BuiltinAction {
    /// Nothing more: report this result.
    Finish(ExecResult),
    /// Terminate the shell with this exit code.
    Exit(u8),
    /// Write this text to standard error, then report success.
    Print(String),
    /// Write the named plugin's field to standard error and report success; when no plugin
    /// of that name can be had, report `plugin_not_found` instead.
    Introspect(PluginField, String),
}

impl View for BuiltinAction {
    type V = ActionView;

    open spec fn view(&self) -> ActionView {
        match self {
            BuiltinAction::Finish(r) => ActionView::Finish(r.code, r.message@),
            BuiltinAction::Exit(c) => ActionView::Exit(*c),
            BuiltinAction::Print(t) => ActionView::Print(t@),
            BuiltinAction::Introspect(f, n) => ActionView::Introspect(*f, n@),
        }
    }
}

/// What `exit` does with the arguments `args`.
pub open spec fn exit_action(args: Seq<Seq<char>>) -> ActionView {
    if args.len() == 0 {
        ActionView::Exit(0)
    } else if args.len() == 1 {
        let p = args[0];
        if p == "-h"@ {
            ActionView::Print(EXIT_HELP@)
        } else if p == "-v"@ {
            ActionView::Print(VERSION@)
        } else {
            match parse_u8_spec(p) {
                Some(code) => ActionView::Exit(code),
                None => ActionView::Finish(ARG_PARSE_FAILURE, "exit: expected u8, found "@ + p),
            }
        }
    } else {
        ActionView::Finish(
            INVALID_ARGS,
            "exit: expected [0-1] argument, found "@ + decimal(args.len()),
        )
    }
}

/// The prefix of the diagnostics of an introspection sub-command.
pub open spec fn sub_prefix(field: PluginField) -> Seq<char> {
    "plugin-"@ + field.name_spec() + ": "@
}

/// What `plugin <field-sub-command>` does with the arguments `rest` that follow the
/// sub-command, given the builtins registered.
pub open spec fn sub_action(
    builtins: Map<Seq<char>, BuiltinCommand>,
    field: PluginField,
    rest: Seq<Seq<char>>,
) -> ActionView {
    let skip: int = if rest.len() > 0 && rest[0] == "--"@ {
        1
    } else {
        0
    };
    if rest.len() <= skip {
        ActionView::Finish(INVALID_ARGS, sub_prefix(field) + "missing argument"@)
    } else if rest.len() > skip + 1 {
        ActionView::Finish(INVALID_ARGS, sub_prefix(field) + "too many arguments"@)
    } else {
        let name = rest[skip];
        if name == "--help"@ {
            ActionView::Print(field.usage_spec())
        } else if builtins.contains_key(name) {
            ActionView::Finish(NOT_A_PLUGIN, sub_prefix(field) + name + " is a shell builtin"@)
        } else {
            ActionView::Introspect(field, name)
        }
    }
}

/// What `plugin` does with the arguments `args`, given the builtins registered.
pub open spec fn plugin_action(
    builtins: Map<Seq<char>, BuiltinCommand>,
    args: Seq<Seq<char>>,
) -> ActionView {
    if args.len() == 0 {
        ActionView::Finish(PLUGIN_NOT_FOUND, "plugin: missing sub-command"@)
    } else {
        let first = args[0];
        let rest = args.drop_first();
        if first == "-h"@ || first == "--help"@ {
            if rest.len() > 0 {
                ActionView::Finish(INVALID_ARGS, "plugin: too many arguments"@)
            } else {
                ActionView::Print(PLUGIN_HELP@)
            }
        } else if first == "-v"@ || first == "--version"@ {
            if rest.len() > 0 {
                ActionView::Finish(INVALID_ARGS, "plugin: too many arguments"@)
            } else {
                ActionView::Print(VERSION@)
            }
        } else if first == "desc"@ || first == "description"@ {
            sub_action(builtins, PluginField::Desc, rest)
        } else if first == "help"@ {
            sub_action(builtins, PluginField::Help, rest)
        } else if first == "version"@ {
            sub_action(builtins, PluginField::Version, rest)
        } else {
            ActionView::Finish(PLUGIN_NOT_FOUND, "plugin: "@ + first + " sub-command not found"@)
        }
    }
}

/// What running the builtin `name` with `args` does.
pub open spec fn builtin_action(
    builtins: Map<Seq<char>, BuiltinCommand>,
    name: Seq<char>,
    args: Seq<Seq<char>>,
) -> ActionView {
    if !builtins.contains_key(name) {
        ActionView::Finish(EXIT_FAILURE, name + ": builtin not found"@)
    } else {
        match builtins[name] {
            BuiltinCommand::Exit => exit_action(args),
            BuiltinCommand::Plugin => plugin_action(builtins, args),
        }
    }
}

/// Whether `s` holds exactly the text `lit`.
fn is_text(s: &String, lit: &str) -> (r: bool)
    ensures
        r == (s@ == lit@),
{
    let other = lit.to_owned();
    s.eq(&other)
}

/// The result of an introspection request whose plugin could not be had.
pub fn plugin_not_found(field: PluginField, name: &str) -> (r: ExecResult)
    ensures
        r.code == PLUGIN_NOT_FOUND,
        r.message@ == sub_prefix(field) + name@ + " plugin not found"@,
{
    let mut m = prefix_of(field);
    m.append(name);
    m.append(" plugin not found");
    ExecResult::with_message(PLUGIN_NOT_FOUND, m)
}

/// The prefix of the diagnostics of an introspection sub-command.
fn prefix_of(field: PluginField) -> (r: String)
    ensures
        r@ == sub_prefix(field),
{
    let mut m = "plugin-".to_owned();
    m.append(field.sub_command());
    m.append(": ");
    m
}

/// Runs `exit` on `args`.
fn exit_command(args: &Vec<String>) -> (r: BuiltinAction)
    ensures
        r@ == exit_action(string_views(args@)),
{
    let ghost v = string_views(args@);
    if args.len() == 0 {
        return BuiltinAction::Exit(0);
    }
    if args.len() > 1 {
        let mut m = "exit: expected [0-1] argument, found ".to_owned();
        push_decimal(&mut m, args.len());
        return BuiltinAction::Finish(ExecResult::with_message(INVALID_ARGS, m));
    }
    let p = &args[0];
    assert(v[0] == p@);
    if is_text(p, "-h") {
        BuiltinAction::Print(EXIT_HELP.to_owned())
    } else if is_text(p, "-v") {
        BuiltinAction::Print(VERSION.to_owned())
    } else {
        match parse_u8(p.as_str()) {
            Some(code) => BuiltinAction::Exit(code),
            None => BuiltinAction::Finish(
                ExecResult::with_message(
                    ARG_PARSE_FAILURE,
                    concat("exit: expected u8, found ", p.as_str()),
                ),
            ),
        }
    }
}

/// A name and the builtin registered under it.
pub struct BuiltinEntry {
    pub name: String,
    pub command: BuiltinCommand,
}

/// The builtin registered last under `k` among `s`.
pub open spec fn lookup(s: Seq<(Seq<char>, BuiltinCommand)>, k: Seq<char>) -> Option<
    BuiltinCommand,
>
    decreases s.len(),
{
    if s.len() == 0 {
        None
    } else if s.last().0 == k {
        Some(s.last().1)
    } else {
        lookup(s.drop_last(), k)
    }
}

/// The names and builtins of a sequence of entries.
pub open spec fn entry_pairs(s: Seq<BuiltinEntry>) -> Seq<(Seq<char>, BuiltinCommand)> {
    s.map_values(|e: BuiltinEntry| (e.name@, e.command))
}

/// Mapping from builtin name to builtin; populated once, at startup.
pub struct BuiltinsRegistry {
    commands: Vec<BuiltinEntry>,
}

/// Why a builtin could not be registered.
#[derive(Clone, Copy, Debug, PartialEq, Eq, Structural)]
pub enum BuiltinError {
    /// A builtin of that name is registered already.
    AlreadyExists,
}

impl View for BuiltinsRegistry {
    type V = Map<Seq<char>, BuiltinCommand>;

    closed spec fn view(&self) -> Map<Seq<char>, BuiltinCommand> {
        Map::new(
            |k: Seq<char>| lookup(entry_pairs(self.commands@), k) is Some,
            |k: Seq<char>| lookup(entry_pairs(self.commands@), k)->0,
        )
    }
}

impl BuiltinsRegistry {
    /// A registry with no builtin.
    pub fn new() -> (r: BuiltinsRegistry)
        ensures
            r@ == Map::<Seq<char>, BuiltinCommand>::empty(),
    {
        let r = BuiltinsRegistry { commands: Vec::new() };
        assert(r@ =~= Map::<Seq<char>, BuiltinCommand>::empty());
        r
    }

    /// The builtin registered under `name`.
    pub fn get_command(&self, name: &str) -> (r: Option<BuiltinCommand>)
        ensures
            r == (if self@.contains_key(name@) {
                Some(self@[name@])
            } else {
                None::<BuiltinCommand>
            }),
    {
        let ghost s = entry_pairs(self.commands@);
        let target = name.to_owned();
        let mut i = self.commands.len();
        assert(s.take(i as int) =~= s);
        while i > 0
            invariant
                i <= self.commands@.len(),
                s == entry_pairs(self.commands@),
                target@ == name@,
                lookup(s, name@) == lookup(s.take(i as int), name@),
            decreases i,
        {
            assert(s.take(i as int).drop_last() =~= s.take(i - 1));
            if self.commands[i - 1].name == target {
                return Some(self.commands[i - 1].command);
            }
            i -= 1;
        }
        assert(s.take(0) =~= Seq::<(Seq<char>, BuiltinCommand)>::empty());
        None
    }

    /// Whether a builtin is registered under `name`.
    pub fn contains(&self, name: &str) -> (r: bool)
        ensures
            r == self@.contains_key(name@),
    {
        self.get_command(name).is_some()
    }

    /// Registers `command` under `name`; fails, changing nothing, if the name is taken.
    pub fn insert_command(&mut self, name: &str, command: BuiltinCommand) -> (r: Result<
        (),
        BuiltinError,
    >)
        ensures
            old(self)@.contains_key(name@) ==> r == Err::<(), BuiltinError>(
                BuiltinError::AlreadyExists,
            ) && final(self)@ == old(self)@,
            !old(self)@.contains_key(name@) ==> r is Ok && final(self)@ == old(self)@.insert(
                name@,
                command,
            ),
    {
        if self.contains(name) {
            return Err(BuiltinError::AlreadyExists);
        }
        let ghost before = self@;
        let ghost s = entry_pairs(self.commands@);
        self.commands.push(BuiltinEntry { name: name.to_owned(), command });
        proof {
            let t = entry_pairs(self.commands@);
            assert(t.drop_last() =~= s);
            assert forall|k: Seq<char>|
                #![auto]
                lookup(t, k) == (if k == name@ {
                    Some(command)
                } else {
                    lookup(s, k)
                }) by {}
            assert(self@ =~= before.insert(name@, command));
        }
        Ok(())
    }

    /// Runs the builtin `builtin_name` on `args`: decides the result, or the one effect the
    /// shell has to carry out.
    pub fn execute(&self, builtin_name: &str, args: &Vec<String>) -> (r: BuiltinAction)
        ensures
            r@ == builtin_action(self@, builtin_name@, string_views(args@)),
    {
        match self.get_command(builtin_name) {
            None => BuiltinAction::Finish(
                ExecResult::with_message(EXIT_FAILURE, concat(builtin_name, ": builtin not found")),
            ),
            Some(BuiltinCommand::Exit) => exit_command(args),
            Some(BuiltinCommand::Plugin) => self.plugin_command(args),
        }
    }

    /// Runs `plugin` on `args`.
    fn plugin_command(&self, args: &Vec<String>) -> (r: BuiltinAction)
        ensures
            r@ == plugin_action(self@, string_views(args@)),
    {
        let ghost v = string_views(args@);
        if args.len() == 0 {
            return BuiltinAction::Finish(
                ExecResult::new(PLUGIN_NOT_FOUND, "plugin: missing sub-command"),
            );
        }
        let first = &args[0];
        assert(v[0] == first@);
        assert(v.drop_first() =~= string_views(args@.drop_first()));
        if is_text(first, "-h") || is_text(first, "--help") {
            if args.len() > 1 {
                BuiltinAction::Finish(ExecResult::new(INVALID_ARGS, "plugin: too many arguments"))
            } else {
                BuiltinAction::Print(PLUGIN_HELP.to_owned())
            }
        } else if is_text(first, "-v") || is_text(first, "--version") {
            if args.len() > 1 {
                BuiltinAction::Finish(ExecResult::new(INVALID_ARGS, "plugin: too many arguments"))
            } else {
                BuiltinAction::Print(VERSION.to_owned())
            }
        } else if is_text(first, "desc") || is_text(first, "description") {
            self.sub_command(PluginField::Desc, args)
        } else if is_text(first, "help") {
            self.sub_command(PluginField::Help, args)
        } else if is_text(first, "version") {
            self.sub_command(PluginField::Version, args)
        } else {
            let mut m = "plugin: ".to_owned();
            m.append(first.as_str());
            m.append(" sub-command not found");
            BuiltinAction::Finish(ExecResult::with_message(PLUGIN_NOT_FOUND, m))
        }
    }

    /// Runs an introspection sub-command on the arguments that follow it, `args[1..]`.
    fn sub_command(&self, field: PluginField, args: &Vec<String>) -> (r: BuiltinAction)
        requires
            args@.len() >= 1,
        ensures
            r@ == sub_action(self@, field, string_views(args@).drop_first()),
    {
        let ghost rest = string_views(args@).drop_first();
        assert forall|j: int| 0 <= j < rest.len() implies rest[j] == #[trigger] args@[j + 1]@ by {}
        let n = args.len();
        let skip: usize = if n > 1 && is_text(&args[1], "--") {
            1
        } else {
            0
        };
        if n - 1 <= skip {
            let mut m = prefix_of(field);
            m.append("missing argument");
            return BuiltinAction::Finish(ExecResult::with_message(INVALID_ARGS, m));
        }
        if n - 1 > skip + 1 {
            let mut m = prefix_of(field);
            m.append("too many arguments");
            return BuiltinAction::Finish(ExecResult::with_message(INVALID_ARGS, m));
        }
        let name = &args[1 + skip];
        assert(rest[skip as int] == name@);
        if is_text(name, "--help") {
            BuiltinAction::Print(field.usage().to_owned())
        } else if self.contains(name.as_str()) {
            let mut m = prefix_of(field);
            m.append(name.as_str());
            m.append(" is a shell builtin");
            BuiltinAction::Finish(ExecResult::with_message(NOT_A_PLUGIN, m))
        } else {
            BuiltinAction::Introspect(field, name.clone())
        }
    }
}

/// The builtins of the shell: `exit` and `plugin`.
pub fn init_module() -> (r: BuiltinsRegistry)
    ensures
        r@ == Map::<Seq<char>, BuiltinCommand>::empty().insert("exit"@, BuiltinCommand::Exit).insert(
            "plugin"@,
            BuiltinCommand::Plugin,
        ),
{
    proof {
        reveal_strlit("exit");
        reveal_strlit("plugin");
    }
    let mut r = BuiltinsRegistry::new();
    let _ = r.insert_command("exit", BuiltinCommand::Exit);
    assert("plugin"@.len() != "exit"@.len());
    assert(!r@.contains_key("plugin"@));
    let _ = r.insert_command("plugin", BuiltinCommand::Plugin);
    r
}

} // verus!
