//! The shared store: the users and messages collections, their invariants
//! (ids unique and strictly increasing, usernames unique), and the
//! operations commands perform on them.  Password hashing and checking go
//! through the bcrypt crate behind trusted wrappers.

use vstd::prelude::*;
use crate::text::dec_digits;
use crate::text::u64_to_string;

verus! {

/// A registered account: unique id, unique username, bcrypt password hash.
#[derive(Clone, Debug)]
pub struct User {
    pub id: i64,
    pub username: String,
    pub password: String,
}

/// A posted message: unique id, author username (a soft reference), subject
/// and multi-line body.
#[derive(Clone, Debug)]
pub struct Message {
    pub id: i64,
    pub username: String,
    pub subject: String,
    pub body: String,
}

/// Which of the two independently stored collections an operation concerns.
#[derive(Clone, Copy, Debug, PartialEq, Eq, Structural)]
pub enum AppStateKind {
    Users,
    Messages,
}

/// Why a store operation was refused.
#[derive(Clone, Copy, Debug, PartialEq, Eq, Structural)]
pub enum StoreError {
    /// A user with the requested username already exists.
    UsernameTaken,
    /// The id space is used up: the last id is the largest representable.
    IdExhausted,
    /// The password hash could not be computed.
    HashFailed,
}

/// The users collection's invariant: ids non-negative, strictly increasing
/// in storage order (so the last id is the maximum), usernames unique.
pub open spec fn users_wf(users: Seq<User>) -> bool {
    &&& forall|i: int| 0 <= i < users.len() ==> #[trigger] users[i].id >= 0
    &&& forall|i: int, j: int|
        0 <= i < j < users.len() ==> #[trigger] users[i].id < #[trigger] users[j].id
    &&& forall|i: int, j: int|
        0 <= i < j < users.len() ==> #[trigger] users[i].username@ != #[trigger] users[j].username@
}

/// The messages collection's invariant: ids non-negative and strictly
/// increasing in storage order.
pub open spec fn msgs_wf(msgs: Seq<Message>) -> bool {
    &&& forall|i: int| 0 <= i < msgs.len() ==> #[trigger] msgs[i].id >= 0
    &&& forall|i: int, j: int|
        0 <= i < j < msgs.len() ==> #[trigger] msgs[i].id < #[trigger] msgs[j].id
}

/// Some stored user carries this username.
pub open spec fn has_username(users: Seq<User>, name: Seq<char>) -> bool {
    exists|i: int| 0 <= i < users.len() && #[trigger] users[i].username@ == name
}

/// The id the next registration receives: one past the largest in use, or 0
/// for an empty collection.  Under `users_wf` the last id is the largest.
pub open spec fn next_user_id(users: Seq<User>) -> int {
    if users.len() == 0 {
        0
    } else {
        users.last().id + 1
    }
}

/// The id the next post receives.
pub open spec fn next_message_id(msgs: Seq<Message>) -> int {
    if msgs.len() == 0 {
        0
    } else {
        msgs.last().id + 1
    }
}

/// What `bcrypt::verify` answers for a password against a stored hash:
/// `Some(true)` for a match, `Some(false)` for a well-formed hash that does
/// not match, `None` for a malformed hash.  The answer is a function of the
/// two arguments alone.
pub uninterp spec fn bcrypt_verify_of(password: Seq<char>, hash: Seq<char>) -> Option<bool>;

/// Relies on `bcrypt::verify`: it re-derives the hash from the password and
/// the cost and salt stored in `hash`, with no other input, so its outcome
/// is a pure function of the two strings, named by `bcrypt_verify_of`.
#[verifier::external_body]
fn bcrypt_verify(password: &str, hash: &str) -> (r: Option<bool>)
    ensures
        r == bcrypt_verify_of(password@, hash@),
{
    match bcrypt::verify(password, hash) {
        Ok(b) => Some(b),
        Err(_) => None,
    }
}

/// Relies on `bcrypt::hash` at the crate's default cost: the salt is drawn
/// fresh each call, but every hash it can return is a well-formed bcrypt
/// string that verifies against the password it was made from; with a valid
/// cost it fails only if the operating system's randomness source does.
#[verifier::external_body]
fn bcrypt_hash(password: &str) -> (r: Option<String>)
    ensures
        r matches Some(h) ==> bcrypt_verify_of(password@, h@) == Some(true),
{
    match bcrypt::hash(password, bcrypt::DEFAULT_COST) {
        Ok(h) => Some(h),
        Err(_) => None,
    }
}

/// Looks a user up by exact username.
pub fn find_user_index(users: &Vec<User>, username: &String) -> (r: Option<usize>)
    ensures
        r matches Some(i) ==> i < users@.len() && users@[i as int].username@ == username@,
        r is None ==> !has_username(users@, username@),
{
    let mut i: usize = 0;
    while i < users.len()
        invariant
            i <= users@.len(),
            forall|k: int| 0 <= k < i ==> #[trigger] users@[k].username@ != username@,
        decreases users@.len() - i,
    {
        if users[i].username == *username {
            return Some(i);
        }
        i = i + 1;
    }
    None
}

/// Whether a login attempt succeeds: a user with this exact username exists
/// and the password verifies against that user's stored hash.
pub fn check_login(users: &Vec<User>, username: &String, password: &String) -> (ok: bool)
    requires
        users_wf(users@),
    ensures
        ok == exists|i: int|
            0 <= i < users@.len() && #[trigger] users@[i].username@ == username@
                && bcrypt_verify_of(password@, users@[i].password@) == Some(true),
{
    match find_user_index(users, username) {
        None => {
            assert(forall|i: int|
                0 <= i < users@.len() ==> #[trigger] users@[i].username@ != username@);
            false
        },
        Some(i) => {
            let r = bcrypt_verify(password.as_str(), users[i].password.as_str());
            let ok = match r {
                Some(true) => true,
                _ => false,
            };
            proof {
                if ok {
                    assert(0 <= i < users@.len() && users@[i as int].username@ == username@
                        && bcrypt_verify_of(password@, users@[i as int].password@) == Some(true));
                } else {
                    // usernames are unique, so no other user can match
                    assert(forall|j: int|
                        0 <= j < users@.len() && #[trigger] users@[j].username@ == username@
                            ==> j == i);
                }
            }
            ok
        },
    }
}

/// One successful registration, abstractly: `post` is `pre` with one user
/// appended under the requested name and the next id.  The `Ok` case of
/// `add_user` establishes exactly this shape.
pub open spec fn registered(pre: Seq<User>, post: Seq<User>, name: Seq<char>) -> bool {
    &&& post.len() == pre.len() + 1
    &&& forall|k: int| 0 <= k < pre.len() ==> post[k] == pre[k]
    &&& post.last().username@ == name
    &&& post.last().id == next_user_id(pre)
}

/// Registers a user: checks username uniqueness, assigns the next id,
/// hashes the password and appends — all in one call, so that a caller
/// holding the collection's write lock across it cannot lose an update or
/// admit a duplicate username.
///
/// Succeeds exactly when the username is free, an id is left, and the hash
/// could be computed; each error says which of these failed, and on every
/// error the collection is untouched.
pub fn add_user(users: &mut Vec<User>, username: &String, password: &String) -> (r: Result<
    i64,
    StoreError,
>)
    requires
        users_wf(old(users)@),
    ensures
        users_wf(final(users)@),
        match r {
            Ok(id) => {
                &&& !has_username(old(users)@, username@)
                &&& next_user_id(old(users)@) <= i64::MAX
                &&& id == next_user_id(old(users)@)
                &&& final(users)@.len() == old(users)@.len() + 1
                &&& forall|k: int| 0 <= k < old(users)@.len() ==> final(users)@[k] == old(users)@[k]
                &&& final(users)@.last().id == id
                &&& final(users)@.last().username@ == username@
                &&& bcrypt_verify_of(password@, final(users)@.last().password@) == Some(true)
                &&& registered(old(users)@, final(users)@, username@)
            },
            Err(StoreError::UsernameTaken) => final(users)@ == old(users)@ && has_username(
                old(users)@,
                username@,
            ),
            Err(StoreError::IdExhausted) => final(users)@ == old(users)@ && !has_username(
                old(users)@,
                username@,
            ) && next_user_id(old(users)@) > i64::MAX,
            Err(StoreError::HashFailed) => final(users)@ == old(users)@ && !has_username(
                old(users)@,
                username@,
            ) && next_user_id(old(users)@) <= i64::MAX,
        },
{
    if find_user_index(users, username).is_some() {
        return Err(StoreError::UsernameTaken);
    }
    let id: i64 = if users.len() == 0 {
        0
    } else {
        let last_id = users[users.len() - 1].id;
        if last_id == i64::MAX {
            return Err(StoreError::IdExhausted);
        }
        last_id + 1
    };
    match bcrypt_hash(password.as_str()) {
        None => Err(StoreError::HashFailed),
        Some(h) => {
            let user = User { id, username: username.clone(), password: h };
            users.push(user);
            proof {
                assert(forall|k: int|
                    0 <= k < old(users)@.len() ==> #[trigger] old(users)@[k].id <= old(
                        users,
                    )@.last().id);
            }
            Ok(id)
        },
    }
}

/// Appends a message under the next id.  Succeeds exactly when an id is
/// left; on failure the collection is untouched.
pub fn add_message(
    messages: &mut Vec<Message>,
    username: &String,
    subject: &String,
    body: &String,
) -> (r: Result<i64, StoreError>)
    requires
        msgs_wf(old(messages)@),
    ensures
        msgs_wf(final(messages)@),
        match r {
            Ok(id) => {
                &&& next_message_id(old(messages)@) <= i64::MAX
                &&& id == next_message_id(old(messages)@)
                &&& final(messages)@.len() == old(messages)@.len() + 1
                &&& forall|k: int|
                    0 <= k < old(messages)@.len() ==> final(messages)@[k] == old(messages)@[k]
                &&& final(messages)@.last().id == id
                &&& final(messages)@.last().username@ == username@
                &&& final(messages)@.last().subject@ == subject@
                &&& final(messages)@.last().body@ == body@
            },
            Err(StoreError::IdExhausted) => final(messages)@ == old(messages)@ && next_message_id(
                old(messages)@,
            ) > i64::MAX,
            Err(_) => false,
        },
{
    let id: i64 = if messages.len() == 0 {
        0
    } else {
        let last_id = messages[messages.len() - 1].id;
        if last_id == i64::MAX {
            return Err(StoreError::IdExhausted);
        }
        last_id + 1
    };
    let message = Message {
        id,
        username: username.clone(),
        subject: subject.clone(),
        body: body.clone(),
    };
    messages.push(message);
    proof {
        assert(forall|k: int|
            0 <= k < old(messages)@.len() ==> #[trigger] old(messages)@[k].id <= old(
                messages,
            )@.last().id);
    }
    Ok(id)
}

/// Resolves a message reference by stored id — not by position in the
/// collection — and hands back a copy of the message.
pub fn find_message(messages: &Vec<Message>, id: i64) -> (r: Option<Message>)
    requires
        msgs_wf(messages@),
    ensures
        r is Some <==> exists|i: int| 0 <= i < messages@.len() && #[trigger] messages@[i].id == id,
        r matches Some(m) ==> m.id == id && exists|i: int|
            0 <= i < messages@.len() && messages@[i] == m,
{
    let mut i: usize = 0;
    while i < messages.len()
        invariant
            i <= messages@.len(),
            forall|k: int| 0 <= k < i ==> #[trigger] messages@[k].id != id,
        decreases messages@.len() - i,
    {
        if messages[i].id == id {
            let m = &messages[i];
            let copy = Message {
                id: m.id,
                username: m.username.clone(),
                subject: m.subject.clone(),
                body: m.body.clone(),
            };
            assert(copy == messages@[i as int]);
            return Some(copy);
        }
        i = i + 1;
    }
    None
}

/// The listing line of one message: id, author and subject, space-separated;
/// the body is withheld.
pub open spec fn message_line_spec(m: Message) -> Seq<char> {
    dec_digits(m.id as nat) + seq![' '] + m.username@ + seq![' '] + m.subject@
}

/// One listing line per stored message, in storage order.
pub fn list_lines(messages: &Vec<Message>) -> (r: Vec<String>)
    requires
        msgs_wf(messages@),
    ensures
        r.deep_view().len() == messages@.len(),
        forall|i: int|
            0 <= i < messages@.len() ==> r.deep_view()[i] == message_line_spec(
                #[trigger] messages@[i],
            ),
{
    let mut out: Vec<String> = Vec::new();
    let mut i: usize = 0;
    while i < messages.len()
        invariant
            msgs_wf(messages@),
            i <= messages@.len(),
            out.deep_view().len() == i,
            forall|k: int|
                0 <= k < i ==> out.deep_view()[k] == message_line_spec(#[trigger] messages@[k]),
        decreases messages@.len() - i,
    {
        let m = &messages[i];
        let mut line = u64_to_string(m.id as u64);
        line.append(" ");
        line.append(m.username.as_str());
        line.append(" ");
        line.append(m.subject.as_str());
        proof {
            reveal_strlit(" ");
            assert(line@ =~= message_line_spec(messages@[i as int]));
        }
        out.push(line);
        i = i + 1;
    }
    out
}

/// Of two registrations of one username, run one after the other — as
/// callers holding the write lock across each `add_user` call are — at most
/// one succeeds: once a registration of `name` has succeeded, the store
/// holds `name`, and by `add_user`'s contract a later registration of
/// `name` returns `UsernameTaken` and leaves the store unchanged.
pub proof fn lemma_duplicate_username_rejected(pre: Seq<User>, post: Seq<User>, name: Seq<char>)
    requires
        registered(pre, post, name),
    ensures
        has_username(post, name),
{
    assert(post[post.len() - 1].username@ == name);
}

/// A chain of successful registrations: each `states[k + 1]` extends
/// `states[k]` by the registration of `names[k]`.
pub open spec fn registration_chain(states: Seq<Seq<User>>, names: Seq<Seq<char>>) -> bool {
    &&& states.len() == names.len() + 1
    &&& forall|k: int|
        0 <= k < names.len() ==> registered(states[k], #[trigger] states[k + 1], names[k])
}

/// Registrations with pairwise-distinct usernames, none taken at the start,
/// all succeed as long as ids are left: no step can be refused as a
/// duplicate or for want of an id, every store along the chain keeps its
/// invariant — ids unique and strictly increasing — the new users receive
/// consecutive ids in call order, and each name is registered exactly once.
pub proof fn lemma_distinct_registrations(states: Seq<Seq<User>>, names: Seq<Seq<char>>)
    requires
        registration_chain(states, names),
        users_wf(states[0]),
        forall|a: int, b: int| 0 <= a < b < names.len() ==> names[a] != names[b],
        forall|a: int| 0 <= a < names.len() ==> !has_username(states[0], #[trigger] names[a]),
        next_user_id(states[0]) + names.len() <= i64::MAX as int + 1,
    ensures
        forall|k: int| 0 <= k <= names.len() ==> users_wf(#[trigger] states[k]),
        forall|k: int| 0 <= k <= names.len() ==> #[trigger] states[k].len() == states[0].len() + k,
        forall|k: int, j: int|
            0 <= k <= names.len() && 0 <= j < states[0].len() ==> #[trigger] states[k][j]
                == states[0][j],
        forall|k: int, a: int|
            0 <= k <= names.len() && 0 <= a < k ==> (#[trigger] states[k][states[0].len()
                + a]).username@ == names[a] && states[k][states[0].len() + a].id == next_user_id(
                states[0],
            ) + a,
        forall|k: int|
            0 <= k <= names.len() ==> next_user_id(#[trigger] states[k]) == next_user_id(states[0])
                + k,
        forall|k: int| 0 <= k < names.len() ==> !has_username(states[k], #[trigger] names[k]),
    decreases names.len(),
{
    if names.len() == 0 {
    } else {
        let n = names.len() as int;
        let spre = states.drop_last();
        let npre = names.drop_last();
        assert(forall|k: int|
            0 <= k < npre.len() ==> registered(spre[k], #[trigger] spre[k + 1], npre[k]));
        lemma_distinct_registrations(spre, npre);
        assert(forall|k: int| 0 <= k <= npre.len() ==> states[k] == spre[k]);
        // the facts for the last state
        let prev = states[n - 1];
        let last = states[n];
        assert(registered(prev, last, names[n - 1]));
        assert(next_user_id(prev) == next_user_id(states[0]) + (n - 1));
        assert(last.last() == last[states[0].len() + (n - 1)]);
        // the name of the last registration is still free in `prev`
        assert(!has_username(prev, names[n - 1])) by {
            if has_username(prev, names[n - 1]) {
                let j = choose|j: int|
                    0 <= j < prev.len() && #[trigger] prev[j].username@ == names[n - 1];
                if j < states[0].len() {
                    assert(prev[j] == states[0][j]);
                    assert(has_username(states[0], names[n - 1]));
                } else {
                    let a = j - states[0].len();
                    assert(prev[states[0].len() + a].username@ == names[a]);
                    assert(names[a] == names[n - 1] && a < n - 1);
                }
            }
        }
        // the pushed user keeps the invariant
        assert(users_wf(last)) by {
            assert(forall|k: int|
                0 <= k < prev.len() ==> #[trigger] prev[k].id <= next_user_id(prev) - 1);
            assert(forall|k: int| 0 <= k < prev.len() ==> last[k] == prev[k]);
            assert(forall|k: int|
                0 <= k < prev.len() ==> #[trigger] last[k].username@ != last[prev.len() as int].username@);
        }
        assert(forall|k: int|
            0 <= k <= names.len() ==> #[trigger] states[k].len() == states[0].len() + k);
        assert(forall|k: int, a: int|
            0 <= k <= names.len() && 0 <= a < k ==> (#[trigger] states[k][states[0].len()
                + a]).username@ == names[a] && states[k][states[0].len() + a].id == next_user_id(
                states[0],
            ) + a);
        assert forall|k: int| 0 <= k < names.len() implies !has_username(
            states[k],
            #[trigger] names[k],
        ) by {
            if k < n - 1 {
                assert(states[k] == spre[k]);
                assert(names[k] == npre[k]);
            } else {
                assert(!has_username(states[n - 1], names[n - 1]));
            }
        }
    }
}

proof fn lemma_ids_pairwise(ids: Seq<int>, i: int, j: int)
    requires
        forall|k: int| 0 < k < ids.len() ==> #[trigger] ids[k - 1] < ids[k],
        0 <= i < j < ids.len(),
    ensures
        ids[i] < ids[j],
    decreases j - i,
{
    if j > i + 1 {
        lemma_ids_pairwise(ids, i, j - 1);
    }
    assert(ids[j - 1] < ids[j]);
}

/// Checks a freshly loaded users collection against the store invariant:
/// a snapshot that breaks it is malformed and must be refused.
pub fn validate_users(users: &Vec<User>) -> (r: bool)
    ensures
        r == users_wf(users@),
{
    let ghost ids = users@.map_values(|u: User| u.id as int);
    let n = users.len();
    let mut i: usize = 0;
    while i < n
        invariant
            n == users@.len(),
            i <= n,
            ids == users@.map_values(|u: User| u.id as int),
            forall|k: int| 0 <= k < i ==> #[trigger] users@[k].id >= 0,
            forall|k: int| 0 < k < i ==> #[trigger] ids[k - 1] < ids[k],
        decreases n - i,
    {
        if users[i].id < 0 {
            return false;
        }
        if i > 0 && users[i].id <= users[i - 1].id {
            assert(users@[i - 1].id >= users@[i as int].id);
            return false;
        }
        i = i + 1;
    }
    assert(forall|a: int, b: int|
        0 <= a < b < users@.len() ==> #[trigger] users@[a].id < #[trigger] users@[b].id) by {
        assert forall|a: int, b: int|
            0 <= a < b < users@.len() implies #[trigger] users@[a].id
            < #[trigger] users@[b].id by {
            lemma_ids_pairwise(ids, a, b);
        }
    }
    let mut i: usize = 0;
    while i < n
        invariant
            n == users@.len(),
            i <= n,
            forall|a: int, b: int|
                0 <= a < b < users@.len() && a < i ==> #[trigger] users@[a].username@
                    != #[trigger] users@[b].username@,
        decreases n - i,
    {
        let mut j: usize = i + 1;
        while j < n
            invariant
                n == users@.len(),
                i < j <= n,
                i < n,
                forall|b: int|
                    i < b < j ==> #[trigger] users@[b].username@ != users@[i as int].username@,
            decreases n - j,
        {
            if users[i].username == users[j].username {
                return false;
            }
            j = j + 1;
        }
        i = i + 1;
    }
    true
}

/// Checks a freshly loaded messages collection against the store invariant.
pub fn validate_messages(messages: &Vec<Message>) -> (r: bool)
    ensures
        r == msgs_wf(messages@),
{
    let ghost ids = messages@.map_values(|m: Message| m.id as int);
    let n = messages.len();
    let mut i: usize = 0;
    while i < n
        invariant
            n == messages@.len(),
            i <= n,
            ids == messages@.map_values(|m: Message| m.id as int),
            forall|k: int| 0 <= k < i ==> #[trigger] messages@[k].id >= 0,
            forall|k: int| 0 < k < i ==> #[trigger] ids[k - 1] < ids[k],
        decreases n - i,
    {
        if messages[i].id < 0 {
            return false;
        }
        if i > 0 && messages[i].id <= messages[i - 1].id {
            assert(messages@[i - 1].id >= messages@[i as int].id);
            return false;
        }
        i = i + 1;
    }
    assert(forall|a: int, b: int|
        0 <= a < b < messages@.len() ==> #[trigger] messages@[a].id < #[trigger] messages@[b].id)
        by {
        assert forall|a: int, b: int|
            0 <= a < b < messages@.len() implies #[trigger] messages@[a].id
            < #[trigger] messages@[b].id by {
            lemma_ids_pairwise(ids, a, b);
        }
    }
    true
}

} // verus!
