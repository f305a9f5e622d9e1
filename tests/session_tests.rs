use interniverse::session::{
    create_session, issue_session, session_valid_at, token_from_bytes, validate_session,
    SessionContext, SessionModel, SessionRecord, SESSION_TTL_MS,
};

#[test]
fn token_text_reads_bytes_least_significant_first() {
    let mut bytes = [0u8; 16];
    assert_eq!(token_from_bytes(bytes), "0");
    bytes[0] = 1;
    assert_eq!(token_from_bytes(bytes), "1");
    bytes[0] = 0;
    bytes[1] = 1;
    assert_eq!(token_from_bytes(bytes), "256");
    assert_eq!(token_from_bytes([0xff; 16]), "340282366920938463463374607431768211455");
    let mut high = [0u8; 16];
    high[15] = 0x80;
    assert_eq!(token_from_bytes(high), "170141183460469231731687303715884105728");
}

#[test]
fn issued_session_validates_until_expiry() {
    let mut rows: Vec<SessionRecord> = Vec::new();
    let mut bytes = [0u8; 16];
    bytes[0] = 42;
    let (token, expiry) = issue_session(&mut rows, 7, bytes, 1_000);
    assert_eq!(token, "42");
    assert_eq!(expiry, 1_000 + SESSION_TTL_MS);
    assert_eq!(rows.len(), 1);
    assert_eq!(rows[0].user_id, 7);
    assert!(session_valid_at(&rows, 7, &token, 1_000));
    assert!(session_valid_at(&rows, 7, &token, expiry));
}

#[test]
fn expired_session_is_invalid_though_stored() {
    let mut rows: Vec<SessionRecord> = Vec::new();
    let (token, expiry) = issue_session(&mut rows, 7, [9u8; 16], 5_000);
    assert!(!session_valid_at(&rows, 7, &token, expiry + 1));
    assert_eq!(rows.len(), 1);
}

#[test]
fn session_must_match_user_and_token() {
    let mut rows: Vec<SessionRecord> = Vec::new();
    let (token, _) = issue_session(&mut rows, 7, [3u8; 16], 0);
    assert!(!session_valid_at(&rows, 8, &token, 10));
    assert!(!session_valid_at(&rows, 7, &"123".to_string(), 10));
}

#[test]
fn created_session_validates_now() {
    let mut rows: Vec<SessionRecord> = Vec::new();
    let (first, _) = create_session(&mut rows, 11);
    let (second, _) = create_session(&mut rows, 11);
    assert_eq!(rows.len(), 2);
    assert!(validate_session(&rows, 11, &first));
    assert!(validate_session(&rows, 11, &second));
    assert!(!validate_session(&rows, 12, &first));
}

#[test]
fn session_context_holds_and_forgets() {
    let mut ctx = SessionContext::new();
    assert!(ctx.get_session().is_none());
    ctx.set_session(SessionModel { token: "5".to_string(), user_id: 3 });
    let held = ctx.get_session().unwrap();
    assert_eq!(held.token, "5");
    assert_eq!(held.user_id, 3);
    ctx.end_session();
    assert!(ctx.get_session().is_none());
}

#[test]
fn created_session_expires_an_hour_after_issue() {
    let start = std::time::SystemTime::now()
        .duration_since(std::time::UNIX_EPOCH)
        .unwrap()
        .as_millis() as i64;
    let mut rows: Vec<SessionRecord> = Vec::new();
    let (token, expiry) = create_session(&mut rows, 5);
    let end = std::time::SystemTime::now()
        .duration_since(std::time::UNIX_EPOCH)
        .unwrap()
        .as_millis() as i64;
    assert!(start + SESSION_TTL_MS <= expiry && expiry <= end + SESSION_TTL_MS);
    assert!(!token.is_empty() && token.chars().all(|c| c.is_ascii_digit()));
    assert!(session_valid_at(&rows, 5, &token, expiry - SESSION_TTL_MS));
    assert!(!session_valid_at(&rows, 5, &token, expiry + 1));
}
