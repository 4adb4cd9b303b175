use backend::models::session::{Claims, Session, TokenPair, TokenType};
use uuid::Uuid;

fn now_millis() -> i64 {
    chrono::Utc::now().timestamp_millis()
}

#[test]
fn test_session_creation() {
    let user_id = Uuid::new_v4();
    let session = Session::new(
        user_id,
        "refresh_token".to_string(),
        24,
        Some("127.0.0.1".to_string()),
        Some("Mozilla/5.0".to_string()),
    );

    assert_eq!(session.user_id, user_id);
    assert!(session.is_active);
    assert!(session.is_valid());
    assert!(!session.is_expired());
}

#[test]
fn test_session_expiration() {
    let user_id = Uuid::new_v4();
    let mut session = Session::new(user_id, "refresh_token".to_string(), 0, None, None);

    session.expires_at = now_millis() - 3_600_000;

    assert!(session.is_expired());
    assert!(!session.is_valid());
}

#[test]
fn session_times_at_a_given_moment() {
    let session = Session::new_at(Uuid::new_v4(), "t".to_string(), 2, None, None, 1_000);
    assert_eq!(session.created_at, 1_000);
    assert_eq!(session.last_used_at, 1_000);
    assert_eq!(session.expires_at, 1_000 + 2 * 3_600_000);
    assert!(!session.is_expired_at(7_201_000));
    assert!(session.is_expired_at(7_201_001));
    assert!(session.is_valid_at(7_201_000));
}

#[test]
fn session_expiry_saturates() {
    let session = Session::new_at(Uuid::new_v4(), "t".to_string(), i64::MAX, None, None, 1_000);
    assert_eq!(session.expires_at, i64::MAX);
    let session = Session::new_at(Uuid::new_v4(), "t".to_string(), i64::MIN, None, None, 1_000);
    assert_eq!(session.expires_at, i64::MIN);
}

#[test]
fn test_session_revoke() {
    let user_id = Uuid::new_v4();
    let mut session = Session::new(user_id, "refresh_token".to_string(), 24, None, None);

    assert!(session.is_valid());
    session.revoke();
    assert!(!session.is_valid());
    assert!(!session.is_active);
}

#[test]
fn test_session_extend() {
    let user_id = Uuid::new_v4();
    let mut session = Session::new(user_id, "refresh_token".to_string(), 1, None, None);

    let earlier_expiry = session.expires_at;
    session.extend(24);
    assert!(session.expires_at > earlier_expiry);
}

#[test]
fn update_last_used_at_records_the_time() {
    let user_id = Uuid::new_v4();
    let mut session = Session::new(user_id, "refresh_token".to_string(), 24, None, None);

    let earlier_last_used = session.last_used_at;
    session.update_last_used_at(earlier_last_used + 10);
    assert!(session.last_used_at > earlier_last_used);
}

#[test]
fn test_access_token_claims() {
    let user_id = Uuid::new_v4();
    let claims = Claims::new_access_token(user_id, "test@example.com".to_string(), "user".to_string(), 1);

    assert!(claims.is_access_token());
    assert!(!claims.is_refresh_token());
    assert!(!claims.is_expired());
    assert_eq!(claims.user_id().unwrap(), user_id);
}

#[test]
fn test_refresh_token_claims() {
    let user_id = Uuid::new_v4();
    let claims = Claims::new_refresh_token(user_id, "test@example.com".to_string(), "user".to_string(), 7);

    assert!(claims.is_refresh_token());
    assert!(!claims.is_access_token());
    assert!(!claims.is_expired());
}

#[test]
fn claims_times_at_a_given_moment() {
    let user_id = Uuid::new_v4();
    let access = Claims::new_access_token_at(user_id, "e".to_string(), "r".to_string(), 2, 100);
    assert_eq!(access.iat, 100);
    assert_eq!(access.exp, 100 + 7_200);
    assert_eq!(access.token_type, TokenType::Access);
    assert_eq!(access.sub, user_id.to_string());
    let refresh = Claims::new_refresh_token_at(user_id, "e".to_string(), "r".to_string(), 7, 100);
    assert_eq!(refresh.exp, 100 + 7 * 86_400);
    assert!(refresh.is_expired_at(100 + 7 * 86_400 + 1));
    assert!(!refresh.is_expired_at(100 + 7 * 86_400));
}

#[test]
fn claims_with_a_malformed_subject_have_no_user() {
    let mut claims = Claims::new_access_token(Uuid::new_v4(), "e".to_string(), "r".to_string(), 1);
    claims.sub = "not-a-uuid".to_string();
    assert!(claims.user_id().is_err());
}

#[test]
fn test_token_pair() {
    let pair = TokenPair::new("access_token".to_string(), "refresh_token".to_string(), 3600);

    assert_eq!(pair.token_type, "Bearer");
    assert_eq!(pair.expires_in, 3600);
}
