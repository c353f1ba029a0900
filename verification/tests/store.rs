use bbs::store::add_message;
use bbs::store::add_user;
use bbs::store::check_login;
use bbs::store::find_message;
use bbs::store::find_user_index;
use bbs::store::list_lines;
use bbs::store::validate_messages;
use bbs::store::validate_users;
use bbs::store::Message;
use bbs::store::StoreError;
use bbs::store::User;

#[test]
fn register_assigns_increasing_ids_from_zero() {
    let mut users: Vec<User> = Vec::new();
    let id0 = add_user(&mut users, &"alice".to_string(), &"pw1".to_string()).unwrap();
    let id1 = add_user(&mut users, &"bob".to_string(), &"pw2".to_string()).unwrap();
    assert_eq!(id0, 0);
    assert_eq!(id1, 1);
    assert_eq!(users.len(), 2);
    assert!(validate_users(&users));
}

#[test]
fn duplicate_username_is_refused_and_store_untouched() {
    let mut users: Vec<User> = Vec::new();
    add_user(&mut users, &"alice".to_string(), &"pw1".to_string()).unwrap();
    let before_hash = users[0].password.clone();
    let r = add_user(&mut users, &"alice".to_string(), &"other".to_string());
    assert_eq!(r, Err(StoreError::UsernameTaken));
    assert_eq!(users.len(), 1);
    assert_eq!(users[0].password, before_hash);
}

#[test]
fn login_checks_password_against_stored_hash() {
    let mut users: Vec<User> = Vec::new();
    add_user(&mut users, &"alice".to_string(), &"pw1".to_string()).unwrap();
    assert!(check_login(&users, &"alice".to_string(), &"pw1".to_string()));
    assert!(!check_login(&users, &"alice".to_string(), &"wrong".to_string()));
    assert!(!check_login(&users, &"nobody".to_string(), &"pw1".to_string()));
}

#[test]
fn stored_password_is_a_hash_not_the_password() {
    let mut users: Vec<User> = Vec::new();
    add_user(&mut users, &"alice".to_string(), &"pw1".to_string()).unwrap();
    assert_ne!(users[0].password, "pw1");
    assert!(users[0].password.starts_with("$2"));
}

#[test]
fn find_user_by_exact_username() {
    let mut users: Vec<User> = Vec::new();
    add_user(&mut users, &"alice".to_string(), &"pw1".to_string()).unwrap();
    add_user(&mut users, &"bob".to_string(), &"pw2".to_string()).unwrap();
    assert_eq!(find_user_index(&users, &"bob".to_string()), Some(1));
    assert_eq!(find_user_index(&users, &"Bob".to_string()), None);
    assert_eq!(find_user_index(&users, &"carol".to_string()), None);
}

fn message(id: i64, username: &str, subject: &str, body: &str) -> Message {
    Message {
        id,
        username: username.to_string(),
        subject: subject.to_string(),
        body: body.to_string(),
    }
}

#[test]
fn post_assigns_previous_max_plus_one() {
    let mut messages: Vec<Message> = Vec::new();
    let id0 = add_message(
        &mut messages,
        &"alice".to_string(),
        &"Hi".to_string(),
        &"Hello\r\n".to_string(),
    )
    .unwrap();
    assert_eq!(id0, 0);
    let id1 = add_message(
        &mut messages,
        &"alice".to_string(),
        &"Again".to_string(),
        &"More\r\n".to_string(),
    )
    .unwrap();
    assert_eq!(id1, 1);
    assert!(validate_messages(&messages));
}

#[test]
fn post_continues_after_loaded_gap() {
    let mut messages = vec![message(5, "a", "s", "b"), message(9, "a", "s", "b")];
    assert!(validate_messages(&messages));
    let id = add_message(
        &mut messages,
        &"alice".to_string(),
        &"Next".to_string(),
        &"text".to_string(),
    )
    .unwrap();
    assert_eq!(id, 10);
}

#[test]
fn read_resolves_by_stored_id_not_position() {
    let messages = vec![message(5, "a", "five", "b5"), message(9, "a", "nine", "b9")];
    let found = find_message(&messages, 9).unwrap();
    assert_eq!(found.subject, "nine");
    assert_eq!(find_message(&messages, 1).map(|m| m.subject), None);
}

#[test]
fn unresolvable_reference_is_not_found_and_changes_nothing() {
    let messages = vec![message(0, "alice", "Hi", "Hello\r\n")];
    assert!(find_message(&messages, 7).is_none());
    assert_eq!(messages.len(), 1);
    assert_eq!(messages[0].subject, "Hi");
}

#[test]
fn listing_shows_id_author_subject() {
    let messages = vec![
        message(0, "alice", "Hi", "Hello\r\n"),
        message(1, "bob", "Re: Hi", "x"),
    ];
    let lines = list_lines(&messages);
    assert_eq!(lines, vec!["0 alice Hi", "1 bob Re: Hi"]);
}

#[test]
fn validation_refuses_broken_snapshots() {
    let ok = vec![message(0, "a", "s", "b"), message(3, "a", "s", "b")];
    assert!(validate_messages(&ok));
    let unsorted = vec![message(3, "a", "s", "b"), message(0, "a", "s", "b")];
    assert!(!validate_messages(&unsorted));
    let negative = vec![message(-1, "a", "s", "b")];
    assert!(!validate_messages(&negative));

    let dup = vec![
        User { id: 0, username: "alice".to_string(), password: "h".to_string() },
        User { id: 1, username: "alice".to_string(), password: "h".to_string() },
    ];
    assert!(!validate_users(&dup));
    let same_id = vec![
        User { id: 0, username: "alice".to_string(), password: "h".to_string() },
        User { id: 0, username: "bob".to_string(), password: "h".to_string() },
    ];
    assert!(!validate_users(&same_id));
    let fine = vec![
        User { id: 0, username: "alice".to_string(), password: "h".to_string() },
        User { id: 4, username: "bob".to_string(), password: "h".to_string() },
    ];
    assert!(validate_users(&fine));
}

#[test]
fn id_space_exhaustion_is_reported() {
    let mut messages = vec![message(i64::MAX, "a", "s", "b")];
    let r = add_message(
        &mut messages,
        &"alice".to_string(),
        &"s".to_string(),
        &"b".to_string(),
    );
    assert_eq!(r, Err(StoreError::IdExhausted));
    assert_eq!(messages.len(), 1);

    let mut users = vec![User {
        id: i64::MAX,
        username: "alice".to_string(),
        password: "h".to_string(),
    }];
    let r = add_user(&mut users, &"bob".to_string(), &"pw".to_string());
    assert_eq!(r, Err(StoreError::IdExhausted));
    assert_eq!(users.len(), 1);
}
