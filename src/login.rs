//! User accounts: registration with a salted PBKDF2 password hash, and login
//! by name and password, each issuing a session.

use vstd::prelude::*;
use pbkdf2::password_hash::{PasswordHash, PasswordHasher, PasswordVerifier, SaltString};
use pbkdf2::Pbkdf2;
use crate::clock::now_millis;
use crate::session::{
    create_session, issued_session, issue_session, token_text, SessionModel, SessionRecord,
    SESSION_TTL_MS,
};

verus! {

/// A registered user. The password is kept only as a PBKDF2 hash in the PHC
/// string format.
#[derive(Clone, Debug)]
pub struct User {
    pub id: i32,
    pub name: String,
    pub password_hash: String,
    pub school: String,
}

/// Why registration or login failed.
#[derive(Clone, Copy, Debug, PartialEq, Eq, Structural)]
pub enum AuthError {
    /// No user has the given name.
    NotFound,
    /// The password does not verify against the user's hash.
    IncorrectPassword,
    /// Another user already has the name.
    NameTaken,
    /// The identifier drawn for a new user belongs to another user.
    IdTaken,
    /// The password could not be hashed.
    HashingFailed,
}

/// Whether `password` verifies against the PHC string `phc` under PBKDF2.
pub uninterp spec fn password_matches(password: Seq<char>, phc: Seq<char>) -> bool;

#[verifier::external_type_specification]
#[verifier::external_body]
pub struct ExSaltString(SaltString);

/// Relies on password_hash::SaltString::generate, fed by rand's OsRng: a
/// fresh random salt (OsRng panics if the operating system yields no
/// randomness). Nothing is known of it.
#[verifier::external_body]
fn fresh_salt() -> SaltString {
    SaltString::generate(&mut rand::rngs::OsRng)
}

/// Relies on pbkdf2::Pbkdf2::hash_password (PasswordHasher, default
/// parameters) and the PHC string it displays. As the crate documents, the
/// string parses back and the password verifies against it.
#[verifier::external_body]
fn hash_password(password: &str, salt: &SaltString) -> (r: Option<String>)
    ensures
        r is Some ==> password_matches(password@, r->0@),
{
    match Pbkdf2.hash_password(password.as_bytes(), salt) {
        Ok(hash) => Some(hash.to_string()),
        Err(_) => None,
    }
}

/// Relies on password_hash::PasswordHash::new, which parses the PHC string,
/// and pbkdf2::Pbkdf2::verify_password (PasswordVerifier). The outcome
/// depends on the password and the string alone; a string that does not parse
/// verifies no password.
#[verifier::external_body]
fn check_password(password: &str, phc: &str) -> (r: bool)
    ensures
        r == password_matches(password@, phc@),
{
    match PasswordHash::new(phc) {
        Ok(hash) => Pbkdf2.verify_password(password.as_bytes(), &hash).is_ok(),
        Err(_) => false,
    }
}

/// The position of the first user of `users` named `name`.
pub open spec fn first_named(users: Seq<User>, name: Seq<char>) -> Option<int>
    decreases users.len(),
{
    if users.len() == 0 {
        None
    } else {
        match first_named(users.drop_last(), name) {
            Some(i) => Some(i),
            None => if users.last().name@ == name {
                Some(users.len() - 1)
            } else {
                None
            },
        }
    }
}

/// The position of the first user of `users` with identifier `id`.
pub open spec fn first_with_id(users: Seq<User>, id: i32) -> Option<int>
    decreases users.len(),
{
    if users.len() == 0 {
        None
    } else {
        match first_with_id(users.drop_last(), id) {
            Some(i) => Some(i),
            None => if users.last().id == id {
                Some(users.len() - 1)
            } else {
                None
            },
        }
    }
}

/// What logging in as `name` with `password` comes to: the position of the
/// user, or why there is none.
pub open spec fn login_outcome(users: Seq<User>, name: Seq<char>, password: Seq<char>) -> Result<
    int,
    AuthError,
> {
    match first_named(users, name) {
        None => Err(AuthError::NotFound),
        Some(i) => if password_matches(password, users[i].password_hash@) {
            Ok(i)
        } else {
            Err(AuthError::IncorrectPassword)
        },
    }
}

proof fn lemma_first_named_bounds(users: Seq<User>, name: Seq<char>)
    ensures
        first_named(users, name) matches Some(i) ==> 0 <= i < users.len() && users[i].name@
            == name,
    decreases users.len(),
{
    if users.len() > 0 {
        lemma_first_named_bounds(users.drop_last(), name);
    }
}

proof fn lemma_first_with_id_bounds(users: Seq<User>, id: i32)
    ensures
        first_with_id(users, id) matches Some(i) ==> 0 <= i < users.len() && users[i].id == id,
    decreases users.len(),
{
    if users.len() > 0 {
        lemma_first_with_id_bounds(users.drop_last(), id);
    }
}

/// The position of the first user named `name`.
pub fn find_user_by_name(users: &Vec<User>, name: &String) -> (r: Option<usize>)
    ensures
        r is None <==> first_named(users@, name@) is None,
        r matches Some(i) ==> first_named(users@, name@) == Some(i as int) && i < users@.len()
            && users@[i as int].name@ == name@,
{
    let mut i: usize = 0;
    while i < users.len()
        invariant
            i <= users@.len(),
            first_named(users@.subrange(0, i as int), name@) is None,
        decreases users@.len() - i,
    {
        assert(users@.subrange(0, i + 1).drop_last() =~= users@.subrange(0, i as int));
        if users[i].name.eq(name) {
            proof {
                lemma_first_named_prefix(users@, name@, i + 1);
                lemma_first_named_bounds(users@, name@);
            }
            return Some(i);
        }
        i += 1;
    }
    assert(users@.subrange(0, i as int) =~= users@);
    None
}

proof fn lemma_first_named_prefix(users: Seq<User>, name: Seq<char>, k: int)
    requires
        0 <= k <= users.len(),
        first_named(users.subrange(0, k), name) is Some,
    ensures
        first_named(users, name) == first_named(users.subrange(0, k), name),
    decreases users.len() - k,
{
    if k < users.len() {
        assert(users.subrange(0, k + 1).drop_last() =~= users.subrange(0, k));
        lemma_first_named_prefix(users, name, k + 1);
    } else {
        assert(users.subrange(0, k) =~= users);
    }
}

proof fn lemma_first_with_id_prefix(users: Seq<User>, id: i32, k: int)
    requires
        0 <= k <= users.len(),
        first_with_id(users.subrange(0, k), id) is Some,
    ensures
        first_with_id(users, id) == first_with_id(users.subrange(0, k), id),
    decreases users.len() - k,
{
    if k < users.len() {
        assert(users.subrange(0, k + 1).drop_last() =~= users.subrange(0, k));
        lemma_first_with_id_prefix(users, id, k + 1);
    } else {
        assert(users.subrange(0, k) =~= users);
    }
}

/// The position of the first user with identifier `id`.
pub fn find_user_by_id(users: &Vec<User>, id: i32) -> (r: Option<usize>)
    ensures
        r is None <==> first_with_id(users@, id) is None,
        r matches Some(i) ==> first_with_id(users@, id) == Some(i as int) && i < users@.len()
            && users@[i as int].id == id,
{
    let mut i: usize = 0;
    while i < users.len()
        invariant
            i <= users@.len(),
            first_with_id(users@.subrange(0, i as int), id) is None,
        decreases users@.len() - i,
    {
        assert(users@.subrange(0, i + 1).drop_last() =~= users@.subrange(0, i as int));
        if users[i].id == id {
            proof {
                lemma_first_with_id_prefix(users@, id, i + 1);
                lemma_first_with_id_bounds(users@, id);
            }
            return Some(i);
        }
        i += 1;
    }
    assert(users@.subrange(0, i as int) =~= users@);
    None
}

impl AuthError {
    /// The text shown to the user for this error.
    pub fn message(&self) -> (r: String)
        ensures
            r@ == (match *self {
                AuthError::NotFound => "User not found"@,
                AuthError::IncorrectPassword => "Incorrect password"@,
                AuthError::NameTaken => "Username already taken"@,
                AuthError::IdTaken => "User identifier already taken"@,
                AuthError::HashingFailed => "Password could not be hashed"@,
            }),
    {
        match self {
            AuthError::NotFound => String::from_str("User not found"),
            AuthError::IncorrectPassword => String::from_str("Incorrect password"),
            AuthError::NameTaken => String::from_str("Username already taken"),
            AuthError::IdTaken => String::from_str("User identifier already taken"),
            AuthError::HashingFailed => String::from_str("Password could not be hashed"),
        }
    }
}

/// Stores a new user with an already hashed password and identifier `id`,
/// and issues the user a session at `now` with the token made of
/// `token_bytes`. A name or identifier that another user has is refused, and
/// nothing is stored.
pub fn register_user(
    users: &mut Vec<User>,
    sessions: &mut Vec<SessionRecord>,
    username: String,
    password_hash: String,
    school: String,
    id: i32,
    token_bytes: [u8; 16],
    now: i64,
) -> (r: Result<SessionModel, AuthError>)
    requires
        now <= i64::MAX - SESSION_TTL_MS,
    ensures
        first_named(old(users)@, username@) is Some ==> r == Err::<SessionModel, AuthError>(
            AuthError::NameTaken,
        ),
        first_named(old(users)@, username@) is None && first_with_id(old(users)@, id) is Some
            ==> r == Err::<SessionModel, AuthError>(AuthError::IdTaken),
        r is Err ==> final(users)@ == old(users)@ && final(sessions)@ == old(sessions)@,
        first_named(old(users)@, username@) is None && first_with_id(old(users)@, id) is None
            ==> (r matches Ok(m) && m.user_id == id && m.token@ == token_text(token_bytes@)
            && final(users)@ == old(users)@.push(
            User { id, name: username, password_hash, school },
        ) && final(sessions)@ == old(sessions)@.push(
            SessionRecord {
                session_token: m.token,
                user_id: id,
                expiry_date: (now + SESSION_TTL_MS) as i64,
            },
        )),
{
    if find_user_by_name(users, &username).is_some() {
        return Err(AuthError::NameTaken);
    }
    if find_user_by_id(users, id).is_some() {
        return Err(AuthError::IdTaken);
    }
    users.push(User { id, name: username, password_hash, school });
    let (token, _expiry) = issue_session(sessions, id, token_bytes, now);
    Ok(SessionModel { token, user_id: id })
}

/// Registers a user: hashes the password with a fresh random salt, draws a
/// random identifier, stores the user and issues a session, which it returns.
/// A name that another user has is refused; so is a drawn identifier that
/// another user has, and a password that cannot be hashed. Nothing is stored
/// then.
pub fn create_user(
    users: &mut Vec<User>,
    sessions: &mut Vec<SessionRecord>,
    username: String,
    password: &str,
    school: String,
) -> (r: Result<SessionModel, AuthError>)
    ensures
        first_named(old(users)@, username@) is Some ==> r == Err::<SessionModel, AuthError>(
            AuthError::NameTaken,
        ),
        first_named(old(users)@, username@) is None ==> (r is Ok || r == Err::<
            SessionModel,
            AuthError,
        >(AuthError::IdTaken) || r == Err::<SessionModel, AuthError>(AuthError::HashingFailed)),
        r is Err ==> final(users)@ == old(users)@ && final(sessions)@ == old(sessions)@,
        r matches Ok(m) ==> first_with_id(old(users)@, m.user_id) is None && password_matches(
            password@,
            final(users)@.last().password_hash@,
        ) && final(users)@ == old(users)@.push(
            User {
                id: m.user_id,
                name: username,
                password_hash: final(users)@.last().password_hash,
                school,
            },
        ) && issued_session(old(sessions)@, final(sessions)@, m.user_id, m.token),
{
    if find_user_by_name(users, &username).is_some() {
        return Err(AuthError::NameTaken);
    }
    let salt = fresh_salt();
    let password_hash = match hash_password(password, &salt) {
        Some(hash) => hash,
        None => {
            return Err(AuthError::HashingFailed);
        },
    };
    let id = rand::random::<i32>();
    let token_bytes = rand::random::<[u8; 16]>();
    let now = now_millis();
    let r = register_user(users, sessions, username, password_hash, school, id, token_bytes, now);
    assert(token_bytes@.len() == 16);
    assert(r matches Ok(m) ==> token_text(token_bytes@) == m.token@);
    r
}

/// Completes a login once the password has been checked: issues the user a
/// session when it verified, and refuses with `IncorrectPassword` otherwise,
/// storing nothing.
pub fn finish_login(sessions: &mut Vec<SessionRecord>, user_id: i32, password_ok: bool) -> (r:
    Result<SessionModel, AuthError>)
    ensures
        !password_ok ==> r == Err::<SessionModel, AuthError>(AuthError::IncorrectPassword)
            && final(sessions)@ == old(sessions)@,
        password_ok ==> (r matches Ok(m) && m.user_id == user_id && issued_session(
            old(sessions)@,
            final(sessions)@,
            user_id,
            m.token,
        )),
{
    if !password_ok {
        return Err(AuthError::IncorrectPassword);
    }
    let (token, _expiry) = create_session(sessions, user_id);
    Ok(SessionModel { token, user_id })
}

/// Logs in as the first user named `username`: when `password` verifies
/// against the user's hash, issues the user a session and returns it.
pub fn login_user(
    users: &Vec<User>,
    sessions: &mut Vec<SessionRecord>,
    username: &String,
    password: &str,
) -> (r: Result<SessionModel, AuthError>)
    ensures
        login_outcome(users@, username@, password@) matches Err(e) ==> r == Err::<
            SessionModel,
            AuthError,
        >(e) && final(sessions)@ == old(sessions)@,
        login_outcome(users@, username@, password@) matches Ok(i) ==> (r matches Ok(m)
            && m.user_id == users@[i].id && issued_session(
            old(sessions)@,
            final(sessions)@,
            m.user_id,
            m.token,
        )),
{
    match find_user_by_name(users, username) {
        None => Err(AuthError::NotFound),
        Some(i) => {
            let user = &users[i];
            let ok = check_password(password, user.password_hash.as_str());
            finish_login(sessions, user.id, ok)
        },
    }
}

/// A user registered with a password under a name that no other user has
/// logs in with that name and password.
pub proof fn lemma_registered_user_logs_in(users: Seq<User>, user: User, password: Seq<char>)
    requires
        first_named(users, user.name@) is None,
        password_matches(password, user.password_hash@),
    ensures
        login_outcome(users.push(user), user.name@, password) == Ok::<int, AuthError>(
            users.len() as int,
        ),
{
    assert(users.push(user).drop_last() =~= users);
}

/// Logging in under a name that no user has fails with `NotFound`.
pub proof fn lemma_unknown_name_not_found(users: Seq<User>, name: Seq<char>, password: Seq<char>)
    requires
        first_named(users, name) is None,
    ensures
        login_outcome(users, name, password) == Err::<int, AuthError>(AuthError::NotFound),
{
}

} // verus!
