use authcore::cache::CacheStore;
use authcore::errors::UserError;
use authcore::token::{
    fresh_uuid, generate_jwt_token, issue_pair, redeem_refresh, validate_access_token,
};

const KEY: &str = "test-signing-SECRET-REDACTED";
const NOW: u64 = 1_700_000_000;

#[test]
fn refresh_token_redeems_exactly_once() {
    let mut tokens: CacheStore<String> = CacheStore::new();
    let user_id = "user-42".to_string();
    let token_id = fresh_uuid();
    let pair = issue_pair(&user_id, &token_id, KEY, NOW, &mut tokens).unwrap();

    let first = redeem_refresh(pair.refresh.as_str(), KEY, NOW + 10, &mut tokens);
    assert_eq!(first.as_deref(), Ok("user-42"));

    let second = redeem_refresh(pair.refresh.as_str(), KEY, NOW + 20, &mut tokens);
    assert_eq!(second, Err(UserError::InvalidRefreshToken));
}

#[test]
fn expired_refresh_token_is_rejected() {
    let mut tokens: CacheStore<String> = CacheStore::new();
    let user_id = "user-1".to_string();
    let token_id = fresh_uuid();
    let pair = issue_pair(&user_id, &token_id, KEY, NOW, &mut tokens).unwrap();
    let after_expiry = NOW + 7 * 24 * 60 * 60 + 1;
    let r = redeem_refresh(pair.refresh.as_str(), KEY, after_expiry, &mut tokens);
    assert_eq!(r, Err(UserError::InvalidRefreshToken));
}

#[test]
fn access_token_cannot_be_redeemed_as_refresh() {
    let mut tokens: CacheStore<String> = CacheStore::new();
    let user_id = "user-1".to_string();
    let token_id = fresh_uuid();
    let pair = issue_pair(&user_id, &token_id, KEY, NOW, &mut tokens).unwrap();
    let r = redeem_refresh(pair.access.as_str(), KEY, NOW + 1, &mut tokens);
    assert_eq!(r, Err(UserError::InvalidRefreshToken));
}

#[test]
fn refresh_token_under_wrong_key_is_rejected() {
    let mut tokens: CacheStore<String> = CacheStore::new();
    let user_id = "user-1".to_string();
    let token_id = fresh_uuid();
    let pair = issue_pair(&user_id, &token_id, KEY, NOW, &mut tokens).unwrap();
    let r = redeem_refresh(pair.refresh.as_str(), "another-key", NOW + 1, &mut tokens);
    assert_eq!(r, Err(UserError::InvalidRefreshToken));
}

#[test]
fn access_token_authenticates_its_subject() {
    let mut tokens: CacheStore<String> = CacheStore::new();
    let user_id = "user-9".to_string();
    let token_id = fresh_uuid();
    let pair = issue_pair(&user_id, &token_id, KEY, NOW, &mut tokens).unwrap();
    let r = validate_access_token(pair.access.as_str(), KEY, NOW + 10);
    assert_eq!(r.as_deref(), Ok("user-9"));
}

#[test]
fn refresh_token_is_no_access_token() {
    let mut tokens: CacheStore<String> = CacheStore::new();
    let user_id = "user-9".to_string();
    let token_id = fresh_uuid();
    let pair = issue_pair(&user_id, &token_id, KEY, NOW, &mut tokens).unwrap();
    let r = validate_access_token(pair.refresh.as_str(), KEY, NOW + 10);
    assert_eq!(r, Err(UserError::AuthenticationFailure));
}

#[test]
fn expired_access_token_is_rejected() {
    let mut tokens: CacheStore<String> = CacheStore::new();
    let user_id = "user-9".to_string();
    let token_id = fresh_uuid();
    let pair = issue_pair(&user_id, &token_id, KEY, NOW, &mut tokens).unwrap();
    let r = validate_access_token(pair.access.as_str(), KEY, NOW + 3601);
    assert_eq!(r, Err(UserError::AuthenticationFailure));
}

#[test]
fn garbage_token_is_rejected() {
    let r = validate_access_token("not.a.token", KEY, NOW);
    assert_eq!(r, Err(UserError::AuthenticationFailure));
    let mut tokens: CacheStore<String> = CacheStore::new();
    let r2 = redeem_refresh("not.a.token", KEY, NOW, &mut tokens);
    assert_eq!(r2, Err(UserError::InvalidRefreshToken));
}

#[test]
fn generate_jwt_token_round_trips_subject() {
    let t = generate_jwt_token("subject-1", "access", 1, None, KEY, NOW).unwrap();
    let uid = validate_access_token(t.as_str(), KEY, NOW + 5).unwrap();
    assert_eq!(uid, "subject-1");
}

#[test]
fn fresh_uuids_are_hyphenated_uuids() {
    let a = fresh_uuid();
    let b = fresh_uuid();
    assert_eq!(a.len(), 36);
    assert_eq!(b.len(), 36);
    assert_ne!(a, b);
}
