use interniverse::login::{
    create_user, finish_login, login_user, register_user, AuthError, User,
};
use interniverse::profile::{get_profile, profile_at};
use interniverse::session::{
    session_valid_at, validate_session, SessionContext, SessionModel, SessionRecord,
    SESSION_TTL_MS,
};

#[test]
fn registered_user_logs_in() {
    let mut users: Vec<User> = Vec::new();
    let mut sessions: Vec<SessionRecord> = Vec::new();
    let registered =
        create_user(&mut users, &mut sessions, "alice".to_string(), "secret", "RPI".to_string())
            .unwrap();
    assert_eq!(users.len(), 1);
    assert_eq!(users[0].id, registered.user_id);
    assert_ne!(users[0].password_hash, "secret");
    assert!(validate_session(&sessions, registered.user_id, &registered.token));

    let session = login_user(&users, &mut sessions, &"alice".to_string(), "secret").unwrap();
    assert_eq!(session.user_id, registered.user_id);
    assert_eq!(sessions.len(), 2);
    assert!(validate_session(&sessions, session.user_id, &session.token));

    let wrong = login_user(&users, &mut sessions, &"alice".to_string(), "wrong");
    assert_eq!(wrong.unwrap_err(), AuthError::IncorrectPassword);
    let nobody = login_user(&users, &mut sessions, &"nobody".to_string(), "x");
    assert_eq!(nobody.unwrap_err(), AuthError::NotFound);
    assert_eq!(sessions.len(), 2);
}

#[test]
fn taken_name_is_refused() {
    let mut users = vec![User {
        id: 1,
        name: "bob".to_string(),
        password_hash: "x".to_string(),
        school: "RPI".to_string(),
    }];
    let mut sessions: Vec<SessionRecord> = Vec::new();
    let r = create_user(&mut users, &mut sessions, "bob".to_string(), "pw", "MIT".to_string());
    assert_eq!(r.unwrap_err(), AuthError::NameTaken);
    assert_eq!(users.len(), 1);
    assert!(sessions.is_empty());
}

#[test]
fn register_user_stores_user_and_session() {
    let mut users: Vec<User> = Vec::new();
    let mut sessions: Vec<SessionRecord> = Vec::new();
    let mut bytes = [0u8; 16];
    bytes[0] = 7;
    let m = register_user(
        &mut users,
        &mut sessions,
        "carol".to_string(),
        "hash".to_string(),
        "RPI".to_string(),
        5,
        bytes,
        100,
    )
    .unwrap();
    assert_eq!(m.user_id, 5);
    assert_eq!(m.token, "7");
    assert_eq!(users[0].name, "carol");
    assert_eq!(sessions[0].expiry_date, 100 + SESSION_TTL_MS);
    assert!(session_valid_at(&sessions, 5, &m.token, 100));

    let same_id = register_user(
        &mut users,
        &mut sessions,
        "dave".to_string(),
        "hash".to_string(),
        "RPI".to_string(),
        5,
        bytes,
        100,
    );
    assert_eq!(same_id.unwrap_err(), AuthError::IdTaken);
    let same_name = register_user(
        &mut users,
        &mut sessions,
        "carol".to_string(),
        "hash".to_string(),
        "RPI".to_string(),
        6,
        bytes,
        100,
    );
    assert_eq!(same_name.unwrap_err(), AuthError::NameTaken);
    assert_eq!(users.len(), 1);
    assert_eq!(sessions.len(), 1);
}

#[test]
fn finish_login_follows_the_password_check() {
    let mut sessions: Vec<SessionRecord> = Vec::new();
    assert_eq!(finish_login(&mut sessions, 4, false).unwrap_err(), AuthError::IncorrectPassword);
    assert!(sessions.is_empty());
    let m = finish_login(&mut sessions, 4, true).unwrap();
    assert_eq!(m.user_id, 4);
    assert_eq!(sessions.len(), 1);
    assert_eq!(sessions[0].session_token, m.token);
}

#[test]
fn malformed_stored_hash_verifies_nothing() {
    let users = vec![User {
        id: 1,
        name: "erin".to_string(),
        password_hash: "not a hash".to_string(),
        school: "RPI".to_string(),
    }];
    let mut sessions: Vec<SessionRecord> = Vec::new();
    let r = login_user(&users, &mut sessions, &"erin".to_string(), "not a hash");
    assert_eq!(r.unwrap_err(), AuthError::IncorrectPassword);
}

#[test]
fn error_messages() {
    assert_eq!(AuthError::NotFound.message(), "User not found");
    assert_eq!(AuthError::IncorrectPassword.message(), "Incorrect password");
    assert_eq!(AuthError::NameTaken.message(), "Username already taken");
}

#[test]
fn profile_of_the_session_user() {
    let users = vec![User {
        id: 9,
        name: "frank".to_string(),
        password_hash: "h".to_string(),
        school: "RPI".to_string(),
    }];
    let sessions = vec![SessionRecord {
        session_token: "77".to_string(),
        user_id: 9,
        expiry_date: 5_000,
    }];
    let mut ctx = SessionContext::new();
    assert!(profile_at(&ctx, &sessions, &users, 0).is_none());
    ctx.set_session(SessionModel { token: "77".to_string(), user_id: 9 });
    let p = profile_at(&ctx, &sessions, &users, 4_000).unwrap();
    assert_eq!(p.name, "frank");
    assert_eq!(p.school, "RPI");
    assert!(profile_at(&ctx, &sessions, &users, 5_001).is_none());
    ctx.set_session(SessionModel { token: "78".to_string(), user_id: 9 });
    assert!(profile_at(&ctx, &sessions, &users, 4_000).is_none());
    let no_user = vec![SessionRecord {
        session_token: "1".to_string(),
        user_id: 10,
        expiry_date: 5_000,
    }];
    ctx.set_session(SessionModel { token: "1".to_string(), user_id: 10 });
    assert!(profile_at(&ctx, &no_user, &users, 0).is_none());
}

#[test]
fn profile_now_after_registration() {
    let mut users: Vec<User> = Vec::new();
    let mut sessions: Vec<SessionRecord> = Vec::new();
    let m = register_user(
        &mut users,
        &mut sessions,
        "gina".to_string(),
        "hash".to_string(),
        "MIT".to_string(),
        3,
        [1u8; 16],
        std::time::SystemTime::now()
            .duration_since(std::time::UNIX_EPOCH)
            .unwrap()
            .as_millis() as i64,
    )
    .unwrap();
    let mut ctx = SessionContext::new();
    ctx.set_session(m);
    let p = get_profile(&ctx, &sessions, &users).unwrap();
    assert_eq!(p.name, "gina");
    assert_eq!(p.school, "MIT");
}
