//! The per-connection session engine: a state machine from input events to
//! state transitions, output lines and one next action.  The engine decides
//! everything; the surrounding program only performs the actions — reading a
//! line, running a store operation, saving a collection, closing the
//! connection — and feeds the outcome back as the next event.

use vstd::prelude::*;
use crate::commands::CommandHandler;
use crate::commands::CommandKind;
use crate::commands::help_line_spec;
use crate::commands::lookup_spec;
use crate::config::Config;
use crate::store::AppStateKind;
use crate::store::Message;
use crate::store::StoreError;
use crate::text::all_digits;
use crate::text::dec_value;
use crate::text::joined;
use crate::text::tokenize_spec;
use crate::text::trim_spec;
use crate::text::tokenize;
use crate::text::trim;
use crate::text::parse_id;
use crate::text::join_with;

verus! {

/// How many failed login rounds a session is allowed before the attempt is
/// abandoned.
pub const MAX_LOGIN_ATTEMPTS: u8 = 3;

/// Whether the session is authenticated, and as whom.  `Disconnected` is
/// terminal: no event leads out of it.
#[derive(Debug)]
pub enum SessionStatus {
    LoggedOn(String),
    LoggedOff,
    Disconnected,
}

/// Where in a command's dialogue the session stands: at the command prompt,
/// mid-prompt-sequence, or waiting for the outcome of a store operation or
/// a save.
#[derive(Debug)]
pub enum SessionMode {
    /// At the command prompt.
    Command,
    /// Login asked for a username.
    LoginUsername { attempts: u8 },
    /// Login asked for a password.
    LoginPassword { attempts: u8, username: String },
    /// Waiting for the credential check's answer.
    AwaitLoginCheck { attempts: u8, username: String },
    /// Registration asked for a username.
    RegisterUsername,
    /// Registration asked for a password.
    RegisterPassword { username: String },
    /// Waiting for the outcome of the user insertion.
    AwaitRegister { username: String },
    /// Waiting for the users collection to be saved.
    AwaitRegisterSave { username: String },
    /// Posting asked for a subject.
    PostSubject,
    /// Reading body lines until the sentinel.
    PostBody { subject: String, body: String },
    /// Waiting for the outcome of the message insertion.
    AwaitPost,
    /// Waiting for the messages collection to be saved.
    AwaitPostSave,
    /// Waiting for the listing lines.
    AwaitList,
    /// Waiting for a message looked up by id.
    AwaitFind,
}

/// The session's whole state between events.
pub struct SessionState {
    pub status: SessionStatus,
    pub mode: SessionMode,
}

/// What the surrounding program hands the engine: an input line, or the
/// outcome of the store operation or save it was asked to perform.
pub enum Event {
    /// A line read from the peer, raw.
    Line(String),
    /// The answer of the credential check.
    LoginChecked(bool),
    /// The outcome of the user insertion.
    UserAdded(Result<i64, StoreError>),
    /// The listing lines of the messages collection.
    MessagesListed(Vec<String>),
    /// The outcome of the message insertion.
    MessageAdded(Result<i64, StoreError>),
    /// The message with the requested id, if any.
    MessageFound(Option<Message>),
    /// Whether the requested save reached stable storage.
    Saved(bool),
}

/// What the engine asks the surrounding program to do next.  Each store
/// operation names the verified function that performs it; the program runs
/// it under the right lock and feeds the outcome back as an event.
pub enum Action {
    /// Write the prompt, read one line, hand it back as `Event::Line`.
    ReadLine,
    /// Close the connection; the session is over.
    Close,
    /// Run `check_login` under the users read lock.
    CheckLogin { username: String, password: String },
    /// Run `add_user` under the users write lock.
    AddUser { username: String, password: String },
    /// Run `list_lines` under the messages read lock.
    ListMessages,
    /// Run `add_message` under the messages write lock.
    AddMessage { username: String, subject: String, body: String },
    /// Run `find_message` under the messages read lock.
    FindMessage { id: i64 },
    /// Persist the named collection.
    Save(AppStateKind),
}

/// One step's outcome: lines to write, then one action to perform.
pub struct StepOutput {
    pub lines: Vec<String>,
    pub action: Action,
}

/// The engine's invariant: the posting dialogue is only ever entered logged
/// on (its submit step needs the author's name), and login attempt counts
/// stay under the cap.
pub open spec fn session_wf(s: SessionState) -> bool {
    &&& (s.mode matches SessionMode::LoginUsername { attempts } ==> attempts
        < MAX_LOGIN_ATTEMPTS)
    &&& (s.mode matches SessionMode::LoginPassword { attempts, .. } ==> attempts
        < MAX_LOGIN_ATTEMPTS)
    &&& (s.mode matches SessionMode::AwaitLoginCheck { attempts, .. } ==> attempts
        < MAX_LOGIN_ATTEMPTS)
    &&& ((s.mode is PostSubject || s.mode is PostBody || s.mode is AwaitPost
        || s.mode is AwaitPostSave) ==> s.status is LoggedOn)
}

/// The output said nothing but `lines`, and asks for another line.
pub open spec fn says(out: StepOutput, lines: Seq<Seq<char>>) -> bool {
    &&& out.lines.deep_view() == lines
    &&& out.action is ReadLine
}

/// An event that does not belong to the current dialogue abandons it: the
/// session returns to the command prompt, silently, status untouched.
pub open spec fn ignored_rel(pre: SessionState, post: SessionState, out: StepOutput) -> bool {
    &&& post.status == pre.status
    &&& post.mode is Command
    &&& says(out, Seq::<Seq<char>>::empty())
}

/// The `message` command's subcommands: list, new, read <id>.
pub open spec fn messages_rel(
    status: SessionStatus,
    toks: Seq<Seq<char>>,
    post: SessionState,
    out: StepOutput,
) -> bool {
    &&& post.status == status
    &&& if toks.len() == 1 {
        post.mode is Command && says(out, seq!["No sub commands"@])
    } else if toks.len() == 2 && toks[1] == "list"@ {
        &&& post.mode is AwaitList
        &&& out.lines.deep_view() == Seq::<Seq<char>>::empty()
        &&& out.action is ListMessages
    } else if toks.len() == 2 && toks[1] == "new"@ {
        if status is LoggedOn {
            post.mode is PostSubject && says(out, Seq::<Seq<char>>::empty())
        } else {
            post.mode is Command && says(out, seq!["Log in first"@])
        }
    } else if toks.len() == 2 {
        post.mode is Command && says(out, seq!["Unknown sub command"@])
    } else if toks.len() == 3 && toks[1] == "read"@ {
        if toks[2].len() > 0 && all_digits(toks[2]) && dec_value(toks[2]) <= i64::MAX {
            &&& post.mode is AwaitFind
            &&& out.lines.deep_view() == Seq::<Seq<char>>::empty()
            &&& out.action matches Action::FindMessage { id } && id == dec_value(toks[2])
        } else {
            post.mode is Command && says(out, seq!["Invalid message id"@])
        }
    } else if toks.len() == 3 {
        post.mode is Command && says(out, seq!["Unknown sub command"@])
    } else {
        post.mode is Command && says(out, seq!["Show usage"@])
    }
}

/// Dispatch of one raw command line from the command prompt: tokenize,
/// resolve the first token in the current phase's registry, and start the
/// resolved command's dialogue.  No tokens at all is invalid input; an
/// unresolved name is an unknown command; both are reported as one line and
/// change nothing.
pub open spec fn dispatch_rel(
    status: SessionStatus,
    handler: CommandHandler,
    line: Seq<char>,
    post: SessionState,
    out: StepOutput,
) -> bool {
    let toks = tokenize_spec(line);
    if toks.len() == 0 {
        &&& post.status == status
        &&& post.mode is Command
        &&& says(out, seq!["Invalid command"@])
    } else {
        match lookup_spec(handler.phase_entries(status is LoggedOn), toks[0]) {
            Option::None => {
                &&& post.status == status
                &&& post.mode is Command
                &&& says(out, seq!["Unknown command"@])
            },
            Option::Some(CommandKind::Login) => {
                &&& post.status == status
                &&& post.mode == (SessionMode::LoginUsername { attempts: 0 })
                &&& says(out, Seq::<Seq<char>>::empty())
            },
            Option::Some(CommandKind::Register) => {
                &&& post.status == status
                &&& post.mode is RegisterUsername
                &&& says(out, Seq::<Seq<char>>::empty())
            },
            Option::Some(CommandKind::Quit) => {
                &&& post.status is Disconnected
                &&& post.mode is Command
                &&& out.lines.deep_view() == Seq::<Seq<char>>::empty()
                &&& out.action is Close
            },
            Option::Some(CommandKind::Help) => {
                &&& post.status == status
                &&& post.mode is Command
                &&& says(
                    out,
                    handler.phase_entries(status is LoggedOn).map_values(
                        |e: crate::commands::CommandEntry| help_line_spec(e),
                    ),
                )
            },
            Option::Some(CommandKind::Messages) => messages_rel(status, toks, post, out),
        }
    }
}

/// The engine's whole transition relation: what one event does to the
/// session in each mode, which lines it writes and which action it asks
/// for.  `step` is proved to realise exactly this relation.
pub open spec fn step_rel(
    pre: SessionState,
    handler: CommandHandler,
    event: Event,
    post: SessionState,
    out: StepOutput,
) -> bool {
    if pre.status is Disconnected {
        &&& post == pre
        &&& out.lines.deep_view() == Seq::<Seq<char>>::empty()
        &&& out.action is Close
    } else {
        match pre.mode {
            SessionMode::Command => match event {
                Event::Line(l) => dispatch_rel(pre.status, handler, l@, post, out),
                _ => ignored_rel(pre, post, out),
            },
            SessionMode::LoginUsername { attempts } => match event {
                Event::Line(l) => {
                    &&& post.status == pre.status
                    &&& post.mode matches SessionMode::LoginPassword { attempts: a, username: u }
                        && a == attempts && u@ == trim_spec(l@)
                    &&& says(out, Seq::<Seq<char>>::empty())
                },
                _ => ignored_rel(pre, post, out),
            },
            SessionMode::LoginPassword { attempts, username } => match event {
                Event::Line(l) => {
                    &&& post.status == pre.status
                    &&& post.mode matches SessionMode::AwaitLoginCheck { attempts: a, username: u }
                        && a == attempts && u@ == username@
                    &&& out.lines.deep_view() == Seq::<Seq<char>>::empty()
                    &&& out.action matches Action::CheckLogin { username: cu, password: cp }
                        && cu@ == username@ && cp@ == trim_spec(l@)
                },
                _ => ignored_rel(pre, post, out),
            },
            SessionMode::AwaitLoginCheck { attempts, username } => match event {
                Event::LoginChecked(true) => {
                    &&& post.status matches SessionStatus::LoggedOn(u) && u@ == username@
                    &&& post.mode is Command
                    &&& says(out, seq!["Login successful"@])
                },
                Event::LoginChecked(false) => {
                    &&& post.status == pre.status
                    &&& if attempts + 1 < MAX_LOGIN_ATTEMPTS {
                        &&& post.mode matches SessionMode::LoginUsername { attempts: a } && a
                            == attempts + 1
                        &&& says(out, seq!["Login failed"@])
                    } else {
                        &&& post.mode is Command
                        &&& says(out, seq!["Login failed"@, "Too many failed login attempts"@])
                    }
                },
                _ => ignored_rel(pre, post, out),
            },
            SessionMode::RegisterUsername => match event {
                Event::Line(l) => {
                    &&& post.status == pre.status
                    &&& post.mode matches SessionMode::RegisterPassword { username: u } && u@
                        == trim_spec(l@)
                    &&& says(out, Seq::<Seq<char>>::empty())
                },
                _ => ignored_rel(pre, post, out),
            },
            SessionMode::RegisterPassword { username } => match event {
                Event::Line(l) => {
                    &&& post.status == pre.status
                    &&& post.mode matches SessionMode::AwaitRegister { username: u } && u@
                        == username@
                    &&& out.lines.deep_view() == Seq::<Seq<char>>::empty()
                    &&& out.action matches Action::AddUser { username: au, password: ap } && au@
                        == username@ && ap@ == trim_spec(l@)
                },
                _ => ignored_rel(pre, post, out),
            },
            SessionMode::AwaitRegister { username } => match event {
                Event::UserAdded(Result::Ok(_)) => {
                    &&& post.status == pre.status
                    &&& post.mode matches SessionMode::AwaitRegisterSave { username: u } && u@
                        == username@
                    &&& out.lines.deep_view() == Seq::<Seq<char>>::empty()
                    &&& out.action == Action::Save(AppStateKind::Users)
                },
                Event::UserAdded(Result::Err(StoreError::UsernameTaken)) => {
                    &&& post.status == pre.status
                    &&& post.mode is Command
                    &&& says(out, seq!["Username already taken"@])
                },
                Event::UserAdded(Result::Err(_)) => {
                    &&& post.status == pre.status
                    &&& post.mode is Command
                    &&& says(out, seq!["Could not register user"@])
                },
                _ => ignored_rel(pre, post, out),
            },
            SessionMode::AwaitRegisterSave { username } => match event {
                Event::Saved(true) => {
                    &&& post.status matches SessionStatus::LoggedOn(u) && u@ == username@
                    &&& post.mode is Command
                    &&& says(out, seq!["Registration successful"@, "Login successful"@])
                },
                Event::Saved(false) => {
                    &&& post.status == pre.status
                    &&& post.mode is Command
                    &&& says(out, seq!["Registration failed: could not save users"@])
                },
                _ => ignored_rel(pre, post, out),
            },
            SessionMode::PostSubject => match event {
                Event::Line(l) => {
                    &&& post.status == pre.status
                    &&& post.mode matches SessionMode::PostBody { subject: s, body: b } && s@
                        == trim_spec(l@) && b@ == Seq::<char>::empty()
                    &&& says(
                        out,
                        seq![
                            Seq::<char>::empty(),
                            "Write your message. Type \".\" on a line by its own to finish."@,
                            Seq::<char>::empty(),
                        ],
                    )
                },
                _ => ignored_rel(pre, post, out),
            },
            SessionMode::PostBody { subject, body } => match event {
                Event::Line(l) => {
                    if trim_spec(l@) == "."@ {
                        &&& post.status == pre.status
                        &&& post.mode is AwaitPost
                        &&& out.lines.deep_view() == Seq::<Seq<char>>::empty()
                        &&& out.action matches Action::AddMessage {
                            username: au,
                            subject: asj,
                            body: ab,
                        } && (pre.status matches SessionStatus::LoggedOn(me) && au@ == me@) && asj@
                            == subject@ && ab@ == body@
                    } else {
                        &&& post.status == pre.status
                        &&& post.mode matches SessionMode::PostBody { subject: s, body: b } && s@
                            == subject@ && b@ == body@ + trim_spec(l@) + "\r\n"@
                        &&& says(out, Seq::<Seq<char>>::empty())
                    }
                },
                _ => ignored_rel(pre, post, out),
            },
            SessionMode::AwaitPost => match event {
                Event::MessageAdded(Result::Ok(_)) => {
                    &&& post.status == pre.status
                    &&& post.mode is AwaitPostSave
                    &&& out.lines.deep_view() == Seq::<Seq<char>>::empty()
                    &&& out.action == Action::Save(AppStateKind::Messages)
                },
                Event::MessageAdded(Result::Err(_)) => {
                    &&& post.status == pre.status
                    &&& post.mode is Command
                    &&& says(out, seq!["Could not post message"@])
                },
                _ => ignored_rel(pre, post, out),
            },
            SessionMode::AwaitPostSave => match event {
                Event::Saved(true) => {
                    &&& post.status == pre.status
                    &&& post.mode is Command
                    &&& says(out, Seq::<Seq<char>>::empty())
                },
                Event::Saved(false) => {
                    &&& post.status == pre.status
                    &&& post.mode is Command
                    &&& says(out, seq!["Message could not be saved"@])
                },
                _ => ignored_rel(pre, post, out),
            },
            SessionMode::AwaitList => match event {
                Event::MessagesListed(ls) => {
                    &&& post.status == pre.status
                    &&& post.mode is Command
                    &&& says(out, ls.deep_view())
                },
                _ => ignored_rel(pre, post, out),
            },
            SessionMode::AwaitFind => match event {
                Event::MessageFound(Option::Some(m)) => {
                    &&& post.status == pre.status
                    &&& post.mode is Command
                    &&& says(
                        out,
                        seq!["Subject: "@ + m.subject@, Seq::<char>::empty(), m.body@],
                    )
                },
                Event::MessageFound(Option::None) => {
                    &&& post.status == pre.status
                    &&& post.mode is Command
                    &&& says(out, seq!["Invalid message id"@])
                },
                _ => ignored_rel(pre, post, out),
            },
        }
    }
}

fn no_output(action: Action) -> (out: StepOutput)
    ensures
        out.lines.deep_view() == Seq::<Seq<char>>::empty(),
        out.action == action,
{
    let out = StepOutput { lines: Vec::new(), action };
    proof {
        assert(out.lines.deep_view() =~= Seq::<Seq<char>>::empty());
    }
    out
}

fn say_one(line: String) -> (out: StepOutput)
    ensures
        says(out, seq![line@]),
{
    let mut lines: Vec<String> = Vec::new();
    lines.push(line);
    let out = StepOutput { lines, action: Action::ReadLine };
    proof {
        assert(out.lines.deep_view() =~= seq![line@]);
    }
    out
}

fn say_two(first: String, second: String) -> (out: StepOutput)
    ensures
        says(out, seq![first@, second@]),
{
    let mut lines: Vec<String> = Vec::new();
    lines.push(first);
    lines.push(second);
    let out = StepOutput { lines, action: Action::ReadLine };
    proof {
        assert(out.lines.deep_view() =~= seq![first@, second@]);
    }
    out
}

impl SessionState {
    /// A fresh session: not authenticated, at the command prompt.
    pub fn new() -> (r: Self)
        ensures
            r.status is LoggedOff,
            r.mode is Command,
            session_wf(r),
    {
        Self { status: SessionStatus::LoggedOff, mode: SessionMode::Command }
    }

    fn messages_command(&mut self, toks: &Vec<String>) -> (out: StepOutput)
        requires
            old(self).mode is Command,
            !(old(self).status is Disconnected),
            toks@.len() >= 1,
        ensures
            messages_rel(old(self).status, toks.deep_view(), *final(self), out),
            session_wf(*final(self)),
            final(self).status == old(self).status,
    {
        let ghost tv = toks.deep_view();
        proof {
            assert(forall|k: int| 0 <= k < toks@.len() ==> tv[k] == #[trigger] toks@[k]@);
        }
        if toks.len() == 1 {
            say_one(String::from_str("No sub commands"))
        } else if toks.len() == 2 {
            let sub = &toks[1];
            if *sub == String::from_str("list") {
                self.mode = SessionMode::AwaitList;
                no_output(Action::ListMessages)
            } else if *sub == String::from_str("new") {
                let logged_on = match &self.status {
                    SessionStatus::LoggedOn(_) => true,
                    _ => false,
                };
                if logged_on {
                    self.mode = SessionMode::PostSubject;
                    no_output(Action::ReadLine)
                } else {
                    say_one(String::from_str("Log in first"))
                }
            } else {
                say_one(String::from_str("Unknown sub command"))
            }
        } else if toks.len() == 3 {
            let sub = &toks[1];
            if *sub == String::from_str("read") {
                match parse_id(toks[2].as_str()) {
                    Option::Some(id) => {
                        self.mode = SessionMode::AwaitFind;
                        no_output(Action::FindMessage { id })
                    },
                    Option::None => say_one(String::from_str("Invalid message id")),
                }
            } else {
                say_one(String::from_str("Unknown sub command"))
            }
        } else {
            say_one(String::from_str("Show usage"))
        }
    }

    fn dispatch(&mut self, handler: &CommandHandler, line: String) -> (out: StepOutput)
        requires
            old(self).mode is Command,
            !(old(self).status is Disconnected),
        ensures
            dispatch_rel(old(self).status, *handler, line@, *final(self), out),
            session_wf(*final(self)),
    {
        let toks = tokenize(line.as_str());
        if toks.len() == 0 {
            return say_one(String::from_str("Invalid command"));
        }
        let logged_on = match &self.status {
            SessionStatus::LoggedOn(_) => true,
            _ => false,
        };
        proof {
            assert(toks.deep_view()[0] == toks@[0]@);
        }
        match handler.resolve(logged_on, toks[0].as_str()) {
            Option::None => say_one(String::from_str("Unknown command")),
            Option::Some(CommandKind::Login) => {
                self.mode = SessionMode::LoginUsername { attempts: 0 };
                no_output(Action::ReadLine)
            },
            Option::Some(CommandKind::Register) => {
                self.mode = SessionMode::RegisterUsername;
                no_output(Action::ReadLine)
            },
            Option::Some(CommandKind::Quit) => {
                self.status = SessionStatus::Disconnected;
                no_output(Action::Close)
            },
            Option::Some(CommandKind::Help) => {
                let lines = handler.help_lines(logged_on);
                proof {
                    assert(lines.deep_view() =~= handler.phase_entries(logged_on).map_values(
                        |e: crate::commands::CommandEntry| help_line_spec(e),
                    ));
                }
                StepOutput { lines, action: Action::ReadLine }
            },
            Option::Some(CommandKind::Messages) => self.messages_command(&toks),
        }
    }

    /// Feeds one event to the session and learns what to do next: the
    /// engine's single entry point, realising `step_rel`.
    pub fn step(&mut self, handler: &CommandHandler, event: Event) -> (out: StepOutput)
        requires
            session_wf(*old(self)),
        ensures
            session_wf(*final(self)),
            step_rel(*old(self), *handler, event, *final(self), out),
    {
        match &self.status {
            SessionStatus::Disconnected => {
                return no_output(Action::Close);
            },
            _ => {},
        }
        let mut mode = SessionMode::Command;
        core::mem::swap(&mut mode, &mut self.mode);
        match mode {
            SessionMode::Command => match event {
                Event::Line(l) => self.dispatch(handler, l),
                _ => no_output(Action::ReadLine),
            },
            SessionMode::LoginUsername { attempts } => match event {
                Event::Line(l) => {
                    let username = trim(l.as_str());
                    self.mode = SessionMode::LoginPassword { attempts, username };
                    no_output(Action::ReadLine)
                },
                _ => no_output(Action::ReadLine),
            },
            SessionMode::LoginPassword { attempts, username } => match event {
                Event::Line(l) => {
                    let password = trim(l.as_str());
                    let username_for_check = username.clone();
                    self.mode = SessionMode::AwaitLoginCheck { attempts, username };
                    no_output(Action::CheckLogin { username: username_for_check, password })
                },
                _ => no_output(Action::ReadLine),
            },
            SessionMode::AwaitLoginCheck { attempts, username } => match event {
                Event::LoginChecked(true) => {
                    self.status = SessionStatus::LoggedOn(username);
                    say_one(String::from_str("Login successful"))
                },
                Event::LoginChecked(false) => {
                    if attempts + 1 < MAX_LOGIN_ATTEMPTS {
                        self.mode = SessionMode::LoginUsername { attempts: attempts + 1 };
                        say_one(String::from_str("Login failed"))
                    } else {
                        say_two(
                            String::from_str("Login failed"),
                            String::from_str("Too many failed login attempts"),
                        )
                    }
                },
                _ => no_output(Action::ReadLine),
            },
            SessionMode::RegisterUsername => match event {
                Event::Line(l) => {
                    let username = trim(l.as_str());
                    self.mode = SessionMode::RegisterPassword { username };
                    no_output(Action::ReadLine)
                },
                _ => no_output(Action::ReadLine),
            },
            SessionMode::RegisterPassword { username } => match event {
                Event::Line(l) => {
                    let password = trim(l.as_str());
                    let username_for_add = username.clone();
                    self.mode = SessionMode::AwaitRegister { username };
                    no_output(Action::AddUser { username: username_for_add, password })
                },
                _ => no_output(Action::ReadLine),
            },
            SessionMode::AwaitRegister { username } => match event {
                Event::UserAdded(Result::Ok(_)) => {
                    self.mode = SessionMode::AwaitRegisterSave { username };
                    no_output(Action::Save(AppStateKind::Users))
                },
                Event::UserAdded(Result::Err(StoreError::UsernameTaken)) => {
                    say_one(String::from_str("Username already taken"))
                },
                Event::UserAdded(Result::Err(_)) => {
                    say_one(String::from_str("Could not register user"))
                },
                _ => no_output(Action::ReadLine),
            },
            SessionMode::AwaitRegisterSave { username } => match event {
                Event::Saved(true) => {
                    self.status = SessionStatus::LoggedOn(username);
                    say_two(
                        String::from_str("Registration successful"),
                        String::from_str("Login successful"),
                    )
                },
                Event::Saved(false) => {
                    say_one(String::from_str("Registration failed: could not save users"))
                },
                _ => no_output(Action::ReadLine),
            },
            SessionMode::PostSubject => match event {
                Event::Line(l) => {
                    let subject = trim(l.as_str());
                    self.mode = SessionMode::PostBody { subject, body: String::new() };
                    let mut lines: Vec<String> = Vec::new();
                    lines.push(String::new());
                    lines.push(
                        String::from_str(
                            "Write your message. Type \".\" on a line by its own to finish.",
                        ),
                    );
                    lines.push(String::new());
                    let out = StepOutput { lines, action: Action::ReadLine };
                    proof {
                        assert(out.lines.deep_view() =~= seq![
                            Seq::<char>::empty(),
                            "Write your message. Type \".\" on a line by its own to finish."@,
                            Seq::<char>::empty(),
                        ]);
                    }
                    out
                },
                _ => no_output(Action::ReadLine),
            },
            SessionMode::PostBody { subject, body } => match event {
                Event::Line(l) => {
                    let piece = trim(l.as_str());
                    if piece == String::from_str(".") {
                        let username = match &self.status {
                            SessionStatus::LoggedOn(u) => u.clone(),
                            _ => {
                                proof {
                                    assert(false);
                                }
                                String::new()
                            },
                        };
                        self.mode = SessionMode::AwaitPost;
                        no_output(Action::AddMessage { username, subject, body })
                    } else {
                        let mut body = body;
                        body.append(piece.as_str());
                        body.append("\r\n");
                        self.mode = SessionMode::PostBody { subject, body };
                        no_output(Action::ReadLine)
                    }
                },
                _ => no_output(Action::ReadLine),
            },
            SessionMode::AwaitPost => match event {
                Event::MessageAdded(Result::Ok(_)) => {
                    self.mode = SessionMode::AwaitPostSave;
                    no_output(Action::Save(AppStateKind::Messages))
                },
                Event::MessageAdded(Result::Err(_)) => {
                    say_one(String::from_str("Could not post message"))
                },
                _ => no_output(Action::ReadLine),
            },
            SessionMode::AwaitPostSave => match event {
                Event::Saved(true) => no_output(Action::ReadLine),
                Event::Saved(false) => say_one(String::from_str("Message could not be saved")),
                _ => no_output(Action::ReadLine),
            },
            SessionMode::AwaitList => match event {
                Event::MessagesListed(ls) => StepOutput { lines: ls, action: Action::ReadLine },
                _ => no_output(Action::ReadLine),
            },
            SessionMode::AwaitFind => match event {
                Event::MessageFound(Option::Some(m)) => {
                    let mut first = String::from_str("Subject: ");
                    first.append(m.subject.as_str());
                    let mut lines: Vec<String> = Vec::new();
                    lines.push(first);
                    lines.push(String::new());
                    let mut body = String::new();
                    body.append(m.body.as_str());
                    lines.push(body);
                    let out = StepOutput { lines, action: Action::ReadLine };
                    proof {
                        assert(out.lines.deep_view() =~= seq![
                            "Subject: "@ + m.subject@,
                            Seq::<char>::empty(),
                            m.body@,
                        ]);
                    }
                    out
                },
                Event::MessageFound(Option::None) => {
                    say_one(String::from_str("Invalid message id"))
                },
                _ => no_output(Action::ReadLine),
            },
        }
    }
}

/// The prompt written before the next line is read in each mode.  Prompts
/// carry no line terminator; the waiting modes read nothing and have none.
pub open spec fn prompt_spec(mode: SessionMode) -> Seq<char> {
    match mode {
        SessionMode::Command => "> "@,
        SessionMode::LoginUsername { .. } => "Username: "@,
        SessionMode::LoginPassword { .. } => "Password: "@,
        SessionMode::RegisterUsername => "Choose a username: "@,
        SessionMode::RegisterPassword { .. } => "Choose a password: "@,
        SessionMode::PostSubject => "Subject: "@,
        _ => Seq::<char>::empty(),
    }
}

impl SessionState {
    /// The prompt to write before reading the next line.
    pub fn prompt(&self) -> (r: String)
        ensures
            r@ == prompt_spec(self.mode),
    {
        match &self.mode {
            SessionMode::Command => String::from_str("> "),
            SessionMode::LoginUsername { .. } => String::from_str("Username: "),
            SessionMode::LoginPassword { .. } => String::from_str("Password: "),
            SessionMode::RegisterUsername => String::from_str("Choose a username: "),
            SessionMode::RegisterPassword { .. } => String::from_str("Choose a password: "),
            SessionMode::PostSubject => String::from_str("Subject: "),
            _ => String::new(),
        }
    }
}

/// The one-time welcome: the configured message if any, then the list of
/// command names reachable before authentication.
pub open spec fn welcome_lines_spec(config: Config, handler: CommandHandler) -> Seq<Seq<char>> {
    (match config.welcome_msg {
        Option::Some(m) => seq![m@, Seq::<char>::empty()],
        Option::None => Seq::<Seq<char>>::empty(),
    }) + seq![
        Seq::<char>::empty(),
        "Commands:"@,
        joined(
            handler.welcome_commands@.map_values(|e: crate::commands::CommandEntry| e.name@),
            " | "@,
        ),
        Seq::<char>::empty(),
    ]
}

/// The lines a fresh session writes before its first prompt.
pub fn welcome_lines(config: &Config, handler: &CommandHandler) -> (r: Vec<String>)
    ensures
        r.deep_view() == welcome_lines_spec(*config, *handler),
{
    let mut out: Vec<String> = Vec::new();
    match &config.welcome_msg {
        Option::Some(m) => {
            out.push(m.clone());
            out.push(String::new());
        },
        Option::None => {},
    }
    out.push(String::new());
    out.push(String::from_str("Commands:"));
    let names = handler.welcome_names();
    proof {
        assert(names.deep_view() =~= handler.welcome_commands@.map_values(
            |e: crate::commands::CommandEntry| e.name@,
        ));
    }
    out.push(join_with(&names, " | "));
    out.push(String::new());
    proof {
        assert(out.deep_view() =~= welcome_lines_spec(*config, *handler));
    }
    out
}

/// A name absent from the current phase's registry is reported as an
/// unknown command, in one line, and neither the status nor the dialogue
/// position changes: the session stays at the command prompt.
pub proof fn lemma_unknown_command_keeps_status(
    pre: SessionState,
    handler: CommandHandler,
    event: Event,
    post: SessionState,
    out: StepOutput,
)
    requires
        step_rel(pre, handler, event, post, out),
        !(pre.status is Disconnected),
        pre.mode is Command,
        event matches Event::Line(l) && tokenize_spec(l@).len() > 0 && lookup_spec(
            handler.phase_entries(pre.status is LoggedOn),
            tokenize_spec(l@)[0],
        ) is None,
    ensures
        post.status == pre.status,
        post.mode is Command,
        says(out, seq!["Unknown command"@]),
{
}

/// A login attempt grants access exactly when the credential check
/// answered yes: then the session becomes logged on under the checked
/// username; on no, the status is left as it was.
pub proof fn lemma_login_grants_iff(
    pre: SessionState,
    handler: CommandHandler,
    event: Event,
    post: SessionState,
    out: StepOutput,
    checked: bool,
)
    requires
        step_rel(pre, handler, event, post, out),
        !(pre.status is Disconnected),
        pre.mode matches SessionMode::AwaitLoginCheck { .. },
        event == Event::LoginChecked(checked),
    ensures
        checked ==> (post.status matches SessionStatus::LoggedOn(u) && (pre.mode matches
            SessionMode::AwaitLoginCheck { username, .. } && u@ == username@)),
        !checked ==> post.status == pre.status,
{
}

/// Login succeeds exactly when a user with the checked username exists and
/// the password verifies against that user's stored hash — the condition
/// `check_login` answers — and on failure the status stays as it was.
pub proof fn lemma_login_iff_credentials(
    pre: SessionState,
    handler: CommandHandler,
    post: SessionState,
    out: StepOutput,
    users: Seq<crate::store::User>,
    password: Seq<char>,
    checked: bool,
)
    requires
        step_rel(pre, handler, Event::LoginChecked(checked), post, out),
        pre.status is LoggedOff,
        pre.mode matches SessionMode::AwaitLoginCheck { .. },
        checked == exists|i: int|
            0 <= i < users.len() && #[trigger] users[i].username@
                == pre.mode->AwaitLoginCheck_username@ && crate::store::bcrypt_verify_of(
                password,
                users[i].password@,
            ) == Some(true),
    ensures
        (post.status is LoggedOn) == exists|i: int|
            0 <= i < users.len() && #[trigger] users[i].username@
                == pre.mode->AwaitLoginCheck_username@ && crate::store::bcrypt_verify_of(
                password,
                users[i].password@,
            ) == Some(true),
        !checked ==> post.status is LoggedOff,
{
}

/// A message reference that resolves to nothing is reported as not found
/// and changes nothing: the status is untouched, and the lookup itself only
/// ever reads the collection.
pub proof fn lemma_read_not_found_unchanged(
    pre: SessionState,
    handler: CommandHandler,
    event: Event,
    post: SessionState,
    out: StepOutput,
)
    requires
        step_rel(pre, handler, event, post, out),
        !(pre.status is Disconnected),
        pre.mode is AwaitFind,
        event == Event::MessageFound(Option::<Message>::None),
    ensures
        post.status == pre.status,
        post.mode is Command,
        says(out, seq!["Invalid message id"@]),
{
}

/// Each successful insertion — a registration or a post — asks for exactly
/// one save of exactly the collection it extended, and nothing is written
/// to the peer until that save has answered.
pub proof fn lemma_insertion_saves_once(
    pre: SessionState,
    handler: CommandHandler,
    event: Event,
    post: SessionState,
    out: StepOutput,
)
    requires
        step_rel(pre, handler, event, post, out),
        !(pre.status is Disconnected),
    ensures
        pre.mode matches SessionMode::AwaitRegister { .. } && (event matches Event::UserAdded(r)
            && r is Ok) ==> out.action == Action::Save(AppStateKind::Users)
            && out.lines.deep_view() == Seq::<Seq<char>>::empty() && post.mode matches
            SessionMode::AwaitRegisterSave { .. },
        pre.mode is AwaitPost && (event matches Event::MessageAdded(r) && r is Ok) ==> out.action
            == Action::Save(AppStateKind::Messages) && out.lines.deep_view() == Seq::<
            Seq<char>,
        >::empty() && post.mode is AwaitPostSave,
{
}

} // verus!
