use bbs::commands::CommandHandler;
use bbs::config::Config;
use bbs::session::welcome_lines;
use bbs::session::Action;
use bbs::session::Event;
use bbs::session::SessionState;
use bbs::session::SessionStatus;
use bbs::store::add_message;
use bbs::store::add_user;
use bbs::store::check_login;
use bbs::store::find_message;
use bbs::store::list_lines;
use bbs::store::AppStateKind;
use bbs::store::Message;
use bbs::store::User;

/// A test stand-in for the program around the engine: performs each action
/// the engine asks for against plain collections and feeds the outcome
/// back, until the engine wants another line or the session is over.
struct Driver {
    session: SessionState,
    handler: CommandHandler,
    users: Vec<User>,
    messages: Vec<Message>,
    saves: Vec<AppStateKind>,
    save_answer: bool,
    closed: bool,
}

impl Driver {
    fn new() -> Driver {
        Driver {
            session: SessionState::new(),
            handler: CommandHandler::standard(),
            users: Vec::new(),
            messages: Vec::new(),
            saves: Vec::new(),
            save_answer: true,
            closed: false,
        }
    }

    /// Feeds one input line and returns everything written before the next
    /// read (or the close).
    fn feed(&mut self, line: &str) -> Vec<String> {
        let mut written: Vec<String> = Vec::new();
        let mut event = Event::Line(line.to_string());
        loop {
            let out = self.session.step(&self.handler, event);
            written.extend(out.lines);
            event = match out.action {
                Action::ReadLine => return written,
                Action::Close => {
                    self.closed = true;
                    return written;
                }
                Action::CheckLogin { username, password } => {
                    Event::LoginChecked(check_login(&self.users, &username, &password))
                }
                Action::AddUser { username, password } => {
                    Event::UserAdded(add_user(&mut self.users, &username, &password))
                }
                Action::ListMessages => Event::MessagesListed(list_lines(&self.messages)),
                Action::AddMessage {
                    username,
                    subject,
                    body,
                } => Event::MessageAdded(add_message(
                    &mut self.messages,
                    &username,
                    &subject,
                    &body,
                )),
                Action::FindMessage { id } => Event::MessageFound(find_message(&self.messages, id)),
                Action::Save(kind) => {
                    self.saves.push(kind);
                    Event::Saved(self.save_answer)
                }
            };
        }
    }

    fn logged_on_as(&self) -> Option<&str> {
        match &self.session.status {
            SessionStatus::LoggedOn(u) => Some(u.as_str()),
            _ => None,
        }
    }
}

#[test]
fn registration_posting_listing_and_reading() {
    let mut d = Driver::new();

    let out = d.feed("register");
    assert!(out.is_empty());
    assert_eq!(d.session.prompt(), "Choose a username: ");
    d.feed("alice");
    assert_eq!(d.session.prompt(), "Choose a password: ");
    let out = d.feed("pw1");
    assert!(out.iter().any(|l| l.contains("Registration successful")));
    assert!(out.iter().any(|l| l.contains("Login successful")));
    assert_eq!(d.logged_on_as(), Some("alice"));
    assert_eq!(d.saves, vec![AppStateKind::Users]);

    d.feed("message new");
    assert_eq!(d.session.prompt(), "Subject: ");
    let out = d.feed("Hi");
    assert!(out.iter().any(|l| l.contains("Write your message")));
    d.feed("Hello");
    let out = d.feed(".");
    assert!(out.is_empty());
    assert_eq!(d.saves, vec![AppStateKind::Users, AppStateKind::Messages]);

    let out = d.feed("message list");
    assert_eq!(out, vec!["0 alice Hi"]);

    let out = d.feed("message read 0");
    assert!(out.iter().any(|l| l.contains("Subject: Hi")));
    assert!(out.iter().any(|l| l.contains("Hello")));
}

#[test]
fn wrong_password_fails_and_reprompts_without_granting_access() {
    let mut d = Driver::new();
    d.feed("register");
    d.feed("alice");
    d.feed("pw1");
    // a fresh session against the same store
    let users = std::mem::take(&mut d.users);
    let mut d2 = Driver::new();
    d2.users = users;

    d2.feed("login");
    assert_eq!(d2.session.prompt(), "Username: ");
    d2.feed("alice");
    assert_eq!(d2.session.prompt(), "Password: ");
    let out = d2.feed("wrong");
    assert!(out.iter().any(|l| l.contains("Login failed")));
    assert_eq!(d2.logged_on_as(), None);
    // the login dialogue starts over
    assert_eq!(d2.session.prompt(), "Username: ");

    // the right password still works afterwards
    d2.feed("alice");
    let out = d2.feed("pw1");
    assert!(out.iter().any(|l| l.contains("Login successful")));
    assert_eq!(d2.logged_on_as(), Some("alice"));
}

#[test]
fn login_attempts_are_capped() {
    let mut d = Driver::new();
    d.feed("register");
    d.feed("alice");
    d.feed("pw1");
    let users = std::mem::take(&mut d.users);
    let mut d2 = Driver::new();
    d2.users = users;

    d2.feed("login");
    d2.feed("alice");
    d2.feed("bad1");
    d2.feed("alice");
    d2.feed("bad2");
    d2.feed("alice");
    let out = d2.feed("bad3");
    assert!(out.iter().any(|l| l.contains("Too many failed login attempts")));
    assert_eq!(d2.logged_on_as(), None);
    assert_eq!(d2.session.prompt(), "> ");
}

#[test]
fn unknown_command_is_reported_and_status_kept() {
    let mut d = Driver::new();
    let out = d.feed("bogus");
    assert_eq!(out, vec!["Unknown command"]);
    assert_eq!(d.logged_on_as(), None);
    assert!(!d.closed);
    // post-auth names are not reachable before login
    let out = d.feed("message list");
    assert_eq!(out, vec!["Unknown command"]);
}

#[test]
fn blank_input_is_invalid_not_a_no_op() {
    let mut d = Driver::new();
    let out = d.feed("");
    assert_eq!(out, vec!["Invalid command"]);
    let out = d.feed("   \t  ");
    assert_eq!(out, vec!["Invalid command"]);
}

#[test]
fn command_names_resolve_case_insensitively() {
    let mut d = Driver::new();
    let out = d.feed("HELP");
    assert!(out.iter().any(|l| l.contains("login - Log in with an existing account")));
    assert!(out.iter().any(|l| l.contains("register - Create an account and log in")));
}

#[test]
fn quit_disconnects_the_session() {
    let mut d = Driver::new();
    d.feed("quit");
    assert!(d.closed);
    assert!(matches!(d.session.status, SessionStatus::Disconnected));
}

#[test]
fn duplicate_concurrent_style_registration_fails() {
    let mut d = Driver::new();
    d.feed("register");
    d.feed("alice");
    d.feed("pw1");
    // a second session races for the same name against the same store
    let users = std::mem::take(&mut d.users);
    let mut d2 = Driver::new();
    d2.users = users;
    d2.feed("register");
    d2.feed("alice");
    let out = d2.feed("pw2");
    assert!(out.iter().any(|l| l.contains("Username already taken")));
    assert_eq!(d2.logged_on_as(), None);
    assert_eq!(d2.users.len(), 1);
    assert!(d2.saves.is_empty());
}

#[test]
fn failed_save_surfaces_as_registration_failure() {
    let mut d = Driver::new();
    d.save_answer = false;
    d.feed("register");
    d.feed("alice");
    let out = d.feed("pw1");
    assert!(out.iter().any(|l| l.contains("Registration failed")));
    assert_eq!(d.logged_on_as(), None);
    assert_eq!(d.saves, vec![AppStateKind::Users]);
}

#[test]
fn message_subcommand_errors() {
    let mut d = Driver::new();
    d.feed("register");
    d.feed("alice");
    d.feed("pw1");
    assert_eq!(d.feed("message"), vec!["No sub commands"]);
    assert_eq!(d.feed("message frobnicate"), vec!["Unknown sub command"]);
    assert_eq!(d.feed("message read abc"), vec!["Invalid message id"]);
    assert_eq!(d.feed("message read 7"), vec!["Invalid message id"]);
    assert_eq!(d.feed("message a b c"), vec!["Show usage"]);
    assert_eq!(d.feed("msg list"), Vec::<String>::new());
}

#[test]
fn welcome_lists_preauth_commands() {
    let config = Config::default();
    let handler = CommandHandler::standard();
    let lines = welcome_lines(&config, &handler);
    assert_eq!(
        lines,
        vec![
            "Welcome to this BBS!",
            "",
            "",
            "Commands:",
            "login | register | quit | help",
            "",
        ]
    );
}

#[test]
fn event_outside_its_dialogue_is_dropped_quietly() {
    let mut d = Driver::new();
    // at the command prompt, a stray save answer belongs to no dialogue
    let out = d.session.step(&d.handler, Event::Saved(true));
    assert!(out.lines.is_empty());
    assert!(matches!(out.action, Action::ReadLine));
    assert_eq!(d.logged_on_as(), None);
    assert_eq!(d.session.prompt(), "> ");
}

#[test]
fn no_event_leaves_a_disconnected_session() {
    let mut d = Driver::new();
    d.feed("quit");
    let out = d.session.step(&d.handler, Event::Line("help".to_string()));
    assert!(out.lines.is_empty());
    assert!(matches!(out.action, Action::Close));
    assert!(matches!(d.session.status, SessionStatus::Disconnected));
}
