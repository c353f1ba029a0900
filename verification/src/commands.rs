//! The command registry: named operations partitioned by login phase, with
//! case-insensitive lookup.  A command may stand under several aliases.

use vstd::prelude::*;
use crate::text::lower_seq;
use crate::text::eq_ignore_ascii_case;

verus! {

/// The operations a session can invoke, as a tagged variant.
#[derive(Clone, Copy, Debug, PartialEq, Eq, Structural)]
pub enum CommandKind {
    Login,
    Register,
    Messages,
    Quit,
    Help,
}

/// Logging in with an existing account.
pub struct Login;

/// Creating an account; a successful registration also logs the user in.
pub struct Register;

/// Listing, posting and reading messages.
pub struct Messages;

/// Ending the session.
pub struct Quit;

/// Showing the commands reachable in the caller's phase.
pub struct Help;

/// The help text of each command.
pub open spec fn kind_help_spec(kind: CommandKind) -> Seq<char> {
    match kind {
        CommandKind::Login => "Log in with an existing account"@,
        CommandKind::Register => "Create an account and log in"@,
        CommandKind::Messages => "Message board: message list | new | read <id>"@,
        CommandKind::Quit => "End the session"@,
        CommandKind::Help => "Show the commands available here"@,
    }
}

impl Login {
    pub fn names() -> (r: Vec<String>)
        ensures
            r.deep_view() =~= seq!["login"@],
    {
        let mut v: Vec<String> = Vec::new();
        v.push(String::from_str("login"));
        v
    }

    pub fn help(&self) -> (r: String)
        ensures
            r@ == kind_help_spec(CommandKind::Login),
    {
        String::from_str("Log in with an existing account")
    }
}

impl Register {
    pub fn names() -> (r: Vec<String>)
        ensures
            r.deep_view() =~= seq!["register"@],
    {
        let mut v: Vec<String> = Vec::new();
        v.push(String::from_str("register"));
        v
    }

    pub fn help(&self) -> (r: String)
        ensures
            r@ == kind_help_spec(CommandKind::Register),
    {
        String::from_str("Create an account and log in")
    }
}

impl Messages {
    pub fn names() -> (r: Vec<String>)
        ensures
            r.deep_view() =~= seq!["message"@, "messages"@, "msg"@],
    {
        let mut v: Vec<String> = Vec::new();
        v.push(String::from_str("message"));
        v.push(String::from_str("messages"));
        v.push(String::from_str("msg"));
        v
    }

    pub fn help(&self) -> (r: String)
        ensures
            r@ == kind_help_spec(CommandKind::Messages),
    {
        String::from_str("Message board: message list | new | read <id>")
    }
}

impl Quit {
    pub fn names() -> (r: Vec<String>)
        ensures
            r.deep_view() =~= seq!["quit"@],
    {
        let mut v: Vec<String> = Vec::new();
        v.push(String::from_str("quit"));
        v
    }

    pub fn help(&self) -> (r: String)
        ensures
            r@ == kind_help_spec(CommandKind::Quit),
    {
        String::from_str("End the session")
    }
}

impl Help {
    pub fn names() -> (r: Vec<String>)
        ensures
            r.deep_view() =~= seq!["help"@],
    {
        let mut v: Vec<String> = Vec::new();
        v.push(String::from_str("help"));
        v
    }

    pub fn help(&self) -> (r: String)
        ensures
            r@ == kind_help_spec(CommandKind::Help),
    {
        String::from_str("Show the commands available here")
    }
}

/// One registry row: a name bound to a command.
pub struct CommandEntry {
    pub name: String,
    pub command: CommandKind,
}

/// The first command registered under `name`, compared ignoring ASCII case.
pub open spec fn lookup_spec(entries: Seq<CommandEntry>, name: Seq<char>) -> Option<CommandKind>
    decreases entries.len(),
{
    if entries.len() == 0 {
        None
    } else if lower_seq(entries[0].name@) == lower_seq(name) {
        Some(entries[0].command)
    } else {
        lookup_spec(entries.drop_first(), name)
    }
}

fn lookup(entries: &Vec<CommandEntry>, name: &str) -> (r: Option<CommandKind>)
    ensures
        r == lookup_spec(entries@, name@),
{
    let mut i: usize = 0;
    assert(entries@.skip(0) =~= entries@);
    while i < entries.len()
        invariant
            i <= entries@.len(),
            lookup_spec(entries@, name@) == lookup_spec(entries@.skip(i as int), name@),
        decreases entries@.len() - i,
    {
        assert(entries@.skip(i as int)[0] == entries@[i as int]);
        if eq_ignore_ascii_case(entries[i].name.as_str(), name) {
            return Some(entries[i].command);
        }
        assert(entries@.skip(i as int).drop_first() =~= entries@.skip(i + 1));
        i = i + 1;
    }
    None
}

/// Appends one registry row per alias, all bound to one command.
pub fn insert_command(
    command: CommandKind,
    names: Vec<String>,
    map: &mut Vec<CommandEntry>,
)
    ensures
        final(map)@.len() == old(map)@.len() + names@.len(),
        forall|k: int| 0 <= k < old(map)@.len() ==> final(map)@[k] == old(map)@[k],
        forall|k: int|
            0 <= k < names@.len() ==> (final(map)@[old(map)@.len() + k]).name == #[trigger] names@[k]
                && final(map)@[old(map)@.len() + k].command == command,
{
    let mut i: usize = 0;
    let n = names.len();
    let mut names = names;
    let ghost names0 = names@;
    while i < n
        invariant
            i <= n,
            names0.len() == n,
            names@.len() == n - i,
            forall|k: int| 0 <= k < names@.len() ==> names@[k] == names0[i + k],
            map@.len() == old(map)@.len() + i,
            forall|k: int| 0 <= k < old(map)@.len() ==> map@[k] == old(map)@[k],
            forall|k: int|
                0 <= k < i ==> (#[trigger] map@[old(map)@.len() + k]).name == names0[k]
                    && map@[old(map)@.len() + k].command == command,
        decreases n - i,
    {
        let name = names.remove(0);
        map.push(CommandEntry { name, command });
        i = i + 1;
    }
}

/// The dispatch registry: two disjoint name maps, one consulted before
/// login and one after.
pub struct CommandHandler {
    pub welcome_commands: Vec<CommandEntry>,
    pub message_commands: Vec<CommandEntry>,
}

/// One help listing line: the name, then the command's help text.
pub open spec fn help_line_spec(e: CommandEntry) -> Seq<char> {
    e.name@ + " - "@ + kind_help_spec(e.command)
}

/// The help text of one command.
pub fn kind_help(kind: CommandKind) -> (r: String)
    ensures
        r@ == kind_help_spec(kind),
{
    match kind {
        CommandKind::Login => (Login).help(),
        CommandKind::Register => (Register).help(),
        CommandKind::Messages => (Messages).help(),
        CommandKind::Quit => (Quit).help(),
        CommandKind::Help => (Help).help(),
    }
}

impl CommandHandler {
    pub fn new(welcome_commands: Vec<CommandEntry>, message_commands: Vec<CommandEntry>) -> (r:
        Self)
        ensures
            r.welcome_commands@ == welcome_commands@,
            r.message_commands@ == message_commands@,
    {
        Self { welcome_commands, message_commands }
    }

    /// The registry a session in the given phase consults.
    pub open spec fn phase_entries(&self, logged_on: bool) -> Seq<CommandEntry> {
        if logged_on {
            self.message_commands@
        } else {
            self.welcome_commands@
        }
    }

    /// The standard registry: login, register, quit and help before
    /// authentication; the message operations, quit and help after.
    pub fn standard() -> (r: Self)
        ensures
            r.welcome_commands@.len() == 4,
            r.welcome_commands@[0].name@ == "login"@,
            r.welcome_commands@[0].command == CommandKind::Login,
            r.welcome_commands@[1].name@ == "register"@,
            r.welcome_commands@[1].command == CommandKind::Register,
            r.welcome_commands@[2].name@ == "quit"@,
            r.welcome_commands@[2].command == CommandKind::Quit,
            r.welcome_commands@[3].name@ == "help"@,
            r.welcome_commands@[3].command == CommandKind::Help,
            r.message_commands@.len() == 5,
            r.message_commands@[0].name@ == "message"@,
            r.message_commands@[0].command == CommandKind::Messages,
            r.message_commands@[1].name@ == "messages"@,
            r.message_commands@[1].command == CommandKind::Messages,
            r.message_commands@[2].name@ == "msg"@,
            r.message_commands@[2].command == CommandKind::Messages,
            r.message_commands@[3].name@ == "quit"@,
            r.message_commands@[3].command == CommandKind::Quit,
            r.message_commands@[4].name@ == "help"@,
            r.message_commands@[4].command == CommandKind::Help,
    {
        let mut welcome: Vec<CommandEntry> = Vec::new();
        let login_names = Login::names();
        assert(login_names@.len() == 1 && login_names@[0]@ == "login"@) by {
            assert(login_names.deep_view().len() == 1);
            assert(login_names.deep_view()[0] == "login"@);
        }
        insert_command(CommandKind::Login, login_names, &mut welcome);
        let register_names = Register::names();
        assert(register_names@.len() == 1 && register_names@[0]@ == "register"@) by {
            assert(register_names.deep_view().len() == 1);
            assert(register_names.deep_view()[0] == "register"@);
        }
        insert_command(CommandKind::Register, register_names, &mut welcome);
        let quit_names = Quit::names();
        assert(quit_names@.len() == 1 && quit_names@[0]@ == "quit"@) by {
            assert(quit_names.deep_view().len() == 1);
            assert(quit_names.deep_view()[0] == "quit"@);
        }
        insert_command(CommandKind::Quit, quit_names, &mut welcome);
        let help_names = Help::names();
        assert(help_names@.len() == 1 && help_names@[0]@ == "help"@) by {
            assert(help_names.deep_view().len() == 1);
            assert(help_names.deep_view()[0] == "help"@);
        }
        insert_command(CommandKind::Help, help_names, &mut welcome);
        let mut message: Vec<CommandEntry> = Vec::new();
        let message_names = Messages::names();
        assert(message_names@.len() == 3 && message_names@[0]@ == "message"@ && message_names@[1]@
            == "messages"@ && message_names@[2]@ == "msg"@) by {
            assert(message_names.deep_view().len() == 3);
            assert(message_names.deep_view()[0] == "message"@);
            assert(message_names.deep_view()[1] == "messages"@);
            assert(message_names.deep_view()[2] == "msg"@);
        }
        insert_command(CommandKind::Messages, message_names, &mut message);
        let quit_names = Quit::names();
        assert(quit_names@.len() == 1 && quit_names@[0]@ == "quit"@) by {
            assert(quit_names.deep_view().len() == 1);
            assert(quit_names.deep_view()[0] == "quit"@);
        }
        insert_command(CommandKind::Quit, quit_names, &mut message);
        let help_names = Help::names();
        assert(help_names@.len() == 1 && help_names@[0]@ == "help"@) by {
            assert(help_names.deep_view().len() == 1);
            assert(help_names.deep_view()[0] == "help"@);
        }
        insert_command(CommandKind::Help, help_names, &mut message);
        Self::new(welcome, message)
    }

    /// Resolves a command name in the caller's phase, ignoring ASCII case.
    pub fn resolve(&self, logged_on: bool, name: &str) -> (r: Option<CommandKind>)
        ensures
            r == lookup_spec(self.phase_entries(logged_on), name@),
    {
        if logged_on {
            lookup(&self.message_commands, name)
        } else {
            lookup(&self.welcome_commands, name)
        }
    }

    /// One line per registry row of the caller's phase: name and help text.
    pub fn help_lines(&self, logged_on: bool) -> (r: Vec<String>)
        ensures
            r.deep_view().len() == self.phase_entries(logged_on).len(),
            forall|i: int|
                0 <= i < r.deep_view().len() ==> r.deep_view()[i] == help_line_spec(
                    #[trigger] self.phase_entries(logged_on)[i],
                ),
    {
        let entries = if logged_on {
            &self.message_commands
        } else {
            &self.welcome_commands
        };
        let mut out: Vec<String> = Vec::new();
        let mut i: usize = 0;
        while i < entries.len()
            invariant
                i <= entries@.len(),
                entries@ == self.phase_entries(logged_on),
                out.deep_view().len() == i,
                forall|k: int|
                    0 <= k < i ==> out.deep_view()[k] == help_line_spec(#[trigger] entries@[k]),
            decreases entries@.len() - i,
        {
            let mut line = entries[i].name.clone();
            line.append(" - ");
            let text = kind_help(entries[i].command);
            line.append(text.as_str());
            proof {
                assert(line@ =~= help_line_spec(entries@[i as int]));
            }
            out.push(line);
            i = i + 1;
        }
        out
    }

    /// The names shown in the welcome banner: every pre-authentication
    /// registry row's name, in registration order.
    pub fn welcome_names(&self) -> (r: Vec<String>)
        ensures
            r.deep_view().len() == self.welcome_commands@.len(),
            forall|i: int|
                0 <= i < r.deep_view().len() ==> r.deep_view()[i]
                    == (#[trigger] self.welcome_commands@[i]).name@,
    {
        let mut out: Vec<String> = Vec::new();
        let mut i: usize = 0;
        while i < self.welcome_commands.len()
            invariant
                i <= self.welcome_commands@.len(),
                out.deep_view().len() == i,
                forall|k: int|
                    0 <= k < i ==> out.deep_view()[k]
                        == (#[trigger] self.welcome_commands@[k]).name@,
            decreases self.welcome_commands@.len() - i,
        {
            out.push(self.welcome_commands[i].name.clone());
            i = i + 1;
        }
        out
    }
}

} // verus!
