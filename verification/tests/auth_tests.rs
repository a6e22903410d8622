use tanoshi::auth::{Claims, TOKEN_LIFETIME_SECONDS};
use tanoshi::entities::User;

fn account() -> User {
    User {
        id: 12,
        username: "admin".to_string(),
        password: "hash".to_string(),
        is_admin: true,
        telegram_chat_id: None,
        pushover_user_key: None,
    }
}

#[test]
fn claims_take_identity_and_expiry_from_the_account_and_clock() {
    let now = chrono::Utc::now().timestamp();
    let claims = Claims::from_user(&account(), now);
    assert_eq!(claims.sub, 12);
    assert_eq!(claims.username, "admin");
    assert!(claims.is_admin);
    assert_eq!(claims.exp as i64, now + TOKEN_LIFETIME_SECONDS);
}

#[test]
fn token_round_trip_preserves_the_claims() {
    let now = chrono::Utc::now().timestamp();
    let claims = Claims::from_user(&account(), now);
    let token = claims.into_token("s3cret").unwrap();

    let back = Claims::from_token("s3cret", &token).unwrap();
    assert_eq!(back.sub, claims.sub);
    assert_eq!(back.username, claims.username);
    assert_eq!(back.is_admin, claims.is_admin);
    assert_eq!(back.exp, claims.exp);
}

#[test]
fn token_signed_with_another_secret_is_rejected() {
    let now = chrono::Utc::now().timestamp();
    let claims = Claims::from_user(&account(), now);
    let token = claims.into_token("s3cret").unwrap();
    assert!(Claims::from_token("other", &token).is_err());
}

#[test]
fn garbage_token_is_rejected() {
    assert!(Claims::from_token("s3cret", "not.a.token").is_err());
    assert!(Claims::from_token("s3cret", "").is_err());
}

#[test]
fn expired_token_is_rejected() {
    // An expiry far in the past: the decoder's validation refuses it.
    let claims = Claims::from_user(&account(), 0);
    let token = claims.into_token("s3cret").unwrap();
    assert!(Claims::from_token("s3cret", &token).is_err());
}
