use bbs::commands::insert_command;
use bbs::commands::CommandEntry;
use bbs::commands::CommandHandler;
use bbs::commands::CommandKind;
use bbs::commands::Help;
use bbs::commands::Login;
use bbs::commands::Messages;
use bbs::commands::Quit;
use bbs::commands::Register;

#[test]
fn commands_register_their_aliases() {
    assert_eq!(Login::names(), vec!["login"]);
    assert_eq!(Register::names(), vec!["register"]);
    assert_eq!(Messages::names(), vec!["message", "messages", "msg"]);
    assert_eq!(Quit::names(), vec!["quit"]);
    assert_eq!(Help::names(), vec!["help"]);
}

#[test]
fn every_command_has_help_text() {
    assert!(!Login.help().is_empty());
    assert!(!Register.help().is_empty());
    assert!(!Messages.help().is_empty());
    assert!(!Quit.help().is_empty());
    assert!(!Help.help().is_empty());
}

#[test]
fn phases_hold_disjoint_command_sets() {
    let handler = CommandHandler::standard();
    assert_eq!(handler.resolve(false, "login"), Some(CommandKind::Login));
    assert_eq!(handler.resolve(false, "register"), Some(CommandKind::Register));
    assert_eq!(handler.resolve(false, "message"), None);
    assert_eq!(handler.resolve(true, "message"), Some(CommandKind::Messages));
    assert_eq!(handler.resolve(true, "msg"), Some(CommandKind::Messages));
    assert_eq!(handler.resolve(true, "login"), None);
    assert_eq!(handler.resolve(false, "quit"), Some(CommandKind::Quit));
    assert_eq!(handler.resolve(true, "quit"), Some(CommandKind::Quit));
}

#[test]
fn resolution_ignores_ascii_case() {
    let handler = CommandHandler::standard();
    assert_eq!(handler.resolve(false, "LOGIN"), Some(CommandKind::Login));
    assert_eq!(handler.resolve(true, "MsG"), Some(CommandKind::Messages));
    assert_eq!(handler.resolve(false, "nope"), None);
}

#[test]
fn inserted_aliases_resolve_to_one_command() {
    let mut welcome: Vec<CommandEntry> = Vec::new();
    insert_command(CommandKind::Quit, vec!["bye".to_string(), "exit".to_string()], &mut welcome);
    let handler = CommandHandler::new(welcome, Vec::new());
    assert_eq!(handler.resolve(false, "bye"), Some(CommandKind::Quit));
    assert_eq!(handler.resolve(false, "exit"), Some(CommandKind::Quit));
    assert_eq!(handler.resolve(true, "bye"), None);
}

#[test]
fn help_lines_name_each_reachable_command() {
    let handler = CommandHandler::standard();
    let pre = handler.help_lines(false);
    assert_eq!(pre.len(), 4);
    assert_eq!(pre[0], "login - Log in with an existing account");
    let post = handler.help_lines(true);
    assert_eq!(post.len(), 5);
    assert!(post[0].starts_with("message - "));
}
