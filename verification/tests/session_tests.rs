use authcore::cache::CacheStore;
use authcore::errors::UserError;
use authcore::session::{
    disable_2fa, enable_2fa, generate_backup_codes, login, login_with_backup_code, register,
    refresh_token_endpoint, update_user, verify_2fa,
};
use authcore::totp::totp_now;
use authcore::user::{
    CreateUserRequest, Disable2FARequest, Enable2FARequest, LoginRequest, RefreshTokenRequest,
    UpdateUserRequest, UpdateUserURL, UseBackupCodeForLoginRequest, User, Verify2FARequest,
};
use authcore::userstore::{UserData, UserDirectory};

const KEY: &str = "session-test-SECRET-REDACTED";
const NOW: u64 = 1_700_000_000;

struct World {
    dir: UserDirectory,
    user_cache: CacheStore<User>,
    tokens: CacheStore<String>,
    now_text: String,
}

fn world() -> World {
    World {
        dir: UserDirectory::new(),
        user_cache: CacheStore::new(),
        tokens: CacheStore::new(),
        now_text: "2023-11-14 22:13:20".to_string(),
    }
}

fn create_req(email: &str, password: &str, name: &str) -> CreateUserRequest {
    CreateUserRequest {
        email: email.to_string(),
        password: password.to_string(),
        name: name.to_string(),
    }
}

fn login_req(email: &str, password: &str, code: Option<&str>) -> LoginRequest {
    LoginRequest {
        email: email.to_string(),
        password: password.to_string(),
        totp_code: code.map(|c| c.to_string()),
    }
}

fn register_alice(w: &mut World) -> authcore::user::UserResponse {
    register(
        &create_req("alice@example.com", "password123", "Alice"),
        &mut w.dir,
        &mut w.user_cache,
        &mut w.tokens,
        KEY,
        NOW,
        &w.now_text,
    )
    .unwrap()
}

/// Enrolls and confirms 2FA for the user, returning the shared secret.
fn enroll_2fa(w: &mut World, uuid: &String, password: &str) -> String {
    let resp = enable_2fa(
        uuid,
        &Enable2FARequest { password: password.to_string() },
        &mut w.dir,
        &mut w.user_cache,
        &w.now_text,
    )
    .unwrap();
    let code = totp_now(resp.secret.as_str(), NOW).unwrap();
    let verified = verify_2fa(
        uuid,
        &Verify2FARequest { code },
        &mut w.dir,
        &mut w.user_cache,
        &w.now_text,
        NOW,
    )
    .unwrap();
    assert!(verified.success);
    resp.secret
}

#[test]
fn register_then_login_succeeds() {
    let mut w = world();
    let resp = register_alice(&mut w);
    assert_eq!(resp.user.email, "alice@example.com");
    assert_eq!(resp.token_type, "Bearer");
    let logged = login(
        &login_req("alice@example.com", "password123", None),
        &w.dir,
        &mut w.user_cache,
        &mut w.tokens,
        KEY,
        NOW + 5,
    )
    .unwrap();
    assert_eq!(logged.user.uuid, resp.user.uuid);
}

#[test]
fn register_duplicate_email_conflicts() {
    let mut w = world();
    register_alice(&mut w);
    let again = register(
        &create_req("alice@example.com", "password123", "Alice II"),
        &mut w.dir,
        &mut w.user_cache,
        &mut w.tokens,
        KEY,
        NOW,
        &w.now_text,
    );
    assert_eq!(again.err(), Some(UserError::UserAlreadyExists));
}

#[test]
fn register_rejects_malformed_email() {
    let mut w = world();
    let r = register(
        &create_req("nonsense", "password123", "X"),
        &mut w.dir,
        &mut w.user_cache,
        &mut w.tokens,
        KEY,
        NOW,
        &w.now_text,
    );
    assert!(matches!(r, Err(UserError::ValidationError(_))));
}

#[test]
fn login_wrong_password_is_invalid_credentials() {
    let mut w = world();
    register_alice(&mut w);
    let r = login(
        &login_req("alice@example.com", "wrong-password", None),
        &w.dir,
        &mut w.user_cache,
        &mut w.tokens,
        KEY,
        NOW,
    );
    assert_eq!(r.err(), Some(UserError::InvalidCredentials));
}

#[test]
fn login_unknown_email_is_invalid_credentials() {
    let mut w = world();
    register_alice(&mut w);
    let r = login(
        &login_req("nobody@example.com", "password123", None),
        &w.dir,
        &mut w.user_cache,
        &mut w.tokens,
        KEY,
        NOW,
    );
    assert_eq!(r.err(), Some(UserError::InvalidCredentials));
}

#[test]
fn two_factor_gate_on_login() {
    let mut w = world();
    let resp = register_alice(&mut w);
    // with 2FA off, the same login succeeds with no code
    assert!(login(
        &login_req("alice@example.com", "password123", None),
        &w.dir,
        &mut w.user_cache,
        &mut w.tokens,
        KEY,
        NOW,
    )
    .is_ok());
    let secret = enroll_2fa(&mut w, &resp.user.uuid, "password123");
    // the cached record was invalidated, so the store's 2FA state rules
    let r = login(
        &login_req("alice@example.com", "password123", None),
        &w.dir,
        &mut w.user_cache,
        &mut w.tokens,
        KEY,
        NOW,
    );
    assert_eq!(r.err(), Some(UserError::TwoFactorRequired));
    // the current TOTP value is accepted
    let code = totp_now(secret.as_str(), NOW).unwrap();
    assert!(login(
        &login_req("alice@example.com", "password123", Some(code.as_str())),
        &w.dir,
        &mut w.user_cache,
        &mut w.tokens,
        KEY,
        NOW,
    )
    .is_ok());
    // a wrong code does not
    let r2 = login(
        &login_req("alice@example.com", "password123", Some("000000")),
        &w.dir,
        &mut w.user_cache,
        &mut w.tokens,
        KEY,
        NOW + 90000,
    );
    assert_eq!(r2.err(), Some(UserError::InvalidTwoFactorCode));
}

#[test]
fn end_to_end_register_refresh_enable_login() {
    let mut w = world();
    // register alice@example.com and receive an access/refresh pair
    let resp = register_alice(&mut w);
    // refresh with that token: a new pair comes back
    let rotated = refresh_token_endpoint(
        &RefreshTokenRequest { refresh_token: resp.refresh_token.clone() },
        &w.dir,
        &mut w.tokens,
        KEY,
        NOW + 10,
    )
    .unwrap();
    assert_eq!(rotated.token_type, "Bearer");
    assert_ne!(rotated.refresh_token, resp.refresh_token);
    // the old refresh token is now rejected
    let replay = refresh_token_endpoint(
        &RefreshTokenRequest { refresh_token: resp.refresh_token.clone() },
        &w.dir,
        &mut w.tokens,
        KEY,
        NOW + 20,
    );
    assert_eq!(replay.err(), Some(UserError::InvalidRefreshToken));
    // enable 2FA, then a login without a code is refused
    let secret = enroll_2fa(&mut w, &resp.user.uuid, "password123");
    let no_code = login(
        &login_req("alice@example.com", "password123", None),
        &w.dir,
        &mut w.user_cache,
        &mut w.tokens,
        KEY,
        NOW + 30,
    );
    assert_eq!(no_code.err(), Some(UserError::TwoFactorRequired));
    // and a login with the correct 30-second code succeeds
    let code = totp_now(secret.as_str(), NOW + 40).unwrap();
    let with_code = login(
        &login_req("alice@example.com", "password123", Some(code.as_str())),
        &w.dir,
        &mut w.user_cache,
        &mut w.tokens,
        KEY,
        NOW + 40,
    );
    assert!(with_code.is_ok());
}

#[test]
fn enable_2fa_twice_is_refused() {
    let mut w = world();
    let resp = register_alice(&mut w);
    enroll_2fa(&mut w, &resp.user.uuid, "password123");
    let again = enable_2fa(
        &resp.user.uuid,
        &Enable2FARequest { password: "password123".to_string() },
        &mut w.dir,
        &mut w.user_cache,
        &w.now_text,
    );
    assert_eq!(again.err(), Some(UserError::TwoFactorAlreadyEnabled));
}

#[test]
fn enable_2fa_needs_the_password() {
    let mut w = world();
    let resp = register_alice(&mut w);
    let r = enable_2fa(
        &resp.user.uuid,
        &Enable2FARequest { password: "wrong-password".to_string() },
        &mut w.dir,
        &mut w.user_cache,
        &w.now_text,
    );
    assert_eq!(r.err(), Some(UserError::InvalidCredentials));
}

#[test]
fn verify_2fa_rejects_wrong_code() {
    let mut w = world();
    let resp = register_alice(&mut w);
    let enabled = enable_2fa(
        &resp.user.uuid,
        &Enable2FARequest { password: "password123".to_string() },
        &mut w.dir,
        &mut w.user_cache,
        &w.now_text,
    )
    .unwrap();
    let good = totp_now(enabled.secret.as_str(), NOW).unwrap();
    let bad = if good == "000000" { "111111" } else { "000000" };
    let r = verify_2fa(
        &resp.user.uuid,
        &Verify2FARequest { code: bad.to_string() },
        &mut w.dir,
        &mut w.user_cache,
        &w.now_text,
        NOW,
    );
    assert_eq!(r.err(), Some(UserError::InvalidTwoFactorCode));
}

#[test]
fn verify_2fa_without_enrollment_is_refused() {
    let mut w = world();
    let resp = register_alice(&mut w);
    let r = verify_2fa(
        &resp.user.uuid,
        &Verify2FARequest { code: "123456".to_string() },
        &mut w.dir,
        &mut w.user_cache,
        &w.now_text,
        NOW,
    );
    assert_eq!(r.err(), Some(UserError::TwoFactorNotEnabled));
}

#[test]
fn disable_2fa_turns_the_gate_off() {
    let mut w = world();
    let resp = register_alice(&mut w);
    let secret = enroll_2fa(&mut w, &resp.user.uuid, "password123");
    let code = totp_now(secret.as_str(), NOW).unwrap();
    let off = disable_2fa(
        &resp.user.uuid,
        &Disable2FARequest { password: "password123".to_string(), code },
        &mut w.dir,
        &mut w.user_cache,
        &w.now_text,
        NOW,
    )
    .unwrap();
    assert!(off.success);
    // login without a code works again
    assert!(login(
        &login_req("alice@example.com", "password123", None),
        &w.dir,
        &mut w.user_cache,
        &mut w.tokens,
        KEY,
        NOW,
    )
    .is_ok());
}

#[test]
fn disable_2fa_when_off_is_refused() {
    let mut w = world();
    let resp = register_alice(&mut w);
    let r = disable_2fa(
        &resp.user.uuid,
        &Disable2FARequest {
            password: "password123".to_string(),
            code: "123456".to_string(),
        },
        &mut w.dir,
        &mut w.user_cache,
        &w.now_text,
        NOW,
    );
    assert_eq!(r.err(), Some(UserError::TwoFactorNotEnabled));
}

fn regenerate(w: &mut World, uuid: &String, secret: &str, at: u64) -> Vec<String> {
    let code = totp_now(secret, at).unwrap();
    generate_backup_codes(
        uuid,
        &Verify2FARequest { code },
        &mut w.dir,
        &mut w.user_cache,
        &w.now_text,
        at,
    )
    .unwrap()
    .backup_codes
}

#[test]
fn backup_code_works_once_and_only_once() {
    let mut w = world();
    let resp = register_alice(&mut w);
    let secret = enroll_2fa(&mut w, &resp.user.uuid, "password123");
    let codes = regenerate(&mut w, &resp.user.uuid, secret.as_str(), NOW);
    assert_eq!(codes.len(), 10);
    let req = UseBackupCodeForLoginRequest {
        email: "alice@example.com".to_string(),
        password: "password123".to_string(),
        backup_code: codes[0].clone(),
    };
    let first = login_with_backup_code(
        &req,
        &mut w.dir,
        &mut w.user_cache,
        &mut w.tokens,
        KEY,
        NOW,
        &w.now_text,
    );
    assert!(first.is_ok());
    let second = login_with_backup_code(
        &req,
        &mut w.dir,
        &mut w.user_cache,
        &mut w.tokens,
        KEY,
        NOW,
        &w.now_text,
    );
    assert!(matches!(second, Err(UserError::BadRequest(ref m)) if m == "Invalid backup code"));
}

#[test]
fn regeneration_invalidates_old_backup_codes() {
    let mut w = world();
    let resp = register_alice(&mut w);
    let secret = enroll_2fa(&mut w, &resp.user.uuid, "password123");
    let old_codes = regenerate(&mut w, &resp.user.uuid, secret.as_str(), NOW);
    let new_codes = regenerate(&mut w, &resp.user.uuid, secret.as_str(), NOW + 120);
    // every code of the first batch now fails
    for code in &old_codes {
        if new_codes.contains(code) {
            continue;
        }
        let r = login_with_backup_code(
            &UseBackupCodeForLoginRequest {
                email: "alice@example.com".to_string(),
                password: "password123".to_string(),
                backup_code: code.clone(),
            },
            &mut w.dir,
            &mut w.user_cache,
            &mut w.tokens,
            KEY,
            NOW + 130,
            &w.now_text,
        );
        assert!(matches!(r, Err(UserError::BadRequest(ref m)) if m == "Invalid backup code"));
    }
    // while a code of the new batch works
    let r = login_with_backup_code(
        &UseBackupCodeForLoginRequest {
            email: "alice@example.com".to_string(),
            password: "password123".to_string(),
            backup_code: new_codes[3].clone(),
        },
        &mut w.dir,
        &mut w.user_cache,
        &mut w.tokens,
        KEY,
        NOW + 130,
        &w.now_text,
    );
    assert!(r.is_ok());
}

#[test]
fn backup_login_without_2fa_is_refused() {
    let mut w = world();
    register_alice(&mut w);
    let r = login_with_backup_code(
        &UseBackupCodeForLoginRequest {
            email: "alice@example.com".to_string(),
            password: "password123".to_string(),
            backup_code: "abcde-fghij".to_string(),
        },
        &mut w.dir,
        &mut w.user_cache,
        &mut w.tokens,
        KEY,
        NOW,
        &w.now_text,
    );
    assert!(matches!(r, Err(UserError::BadRequest(ref m)) if m == "2FA is not enabled for this user"));
}

#[test]
fn backup_login_without_codes_is_refused() {
    let mut w = world();
    let resp = register_alice(&mut w);
    enroll_2fa(&mut w, &resp.user.uuid, "password123");
    let r = login_with_backup_code(
        &UseBackupCodeForLoginRequest {
            email: "alice@example.com".to_string(),
            password: "password123".to_string(),
            backup_code: "abcde-fghij".to_string(),
        },
        &mut w.dir,
        &mut w.user_cache,
        &mut w.tokens,
        KEY,
        NOW,
        &w.now_text,
    );
    assert!(matches!(r, Err(UserError::BadRequest(ref m)) if m == "No backup codes available"));
}

#[test]
fn update_user_changes_email() {
    let mut w = world();
    let resp = register_alice(&mut w);
    let updated = update_user(
        &UpdateUserURL { uuid: resp.user.uuid.clone() },
        &UpdateUserRequest { email: "alice2@example.com".to_string() },
        &mut w.dir,
        &mut w.user_cache,
        &w.now_text,
    )
    .unwrap();
    assert_eq!(updated.email, "alice2@example.com");
    assert!(w.dir.get_user_by_email(&"alice2@example.com".to_string()).is_ok());
    assert!(w.dir.get_user_by_email(&"alice@example.com".to_string()).is_err());
}

#[test]
fn update_user_refuses_taken_email() {
    let mut w = world();
    let alice = register_alice(&mut w);
    register(
        &create_req("bob@example.com", "password456", "Bob"),
        &mut w.dir,
        &mut w.user_cache,
        &mut w.tokens,
        KEY,
        NOW,
        &w.now_text,
    )
    .unwrap();
    let r = update_user(
        &UpdateUserURL { uuid: alice.user.uuid.clone() },
        &UpdateUserRequest { email: "bob@example.com".to_string() },
        &mut w.dir,
        &mut w.user_cache,
        &w.now_text,
    );
    assert!(matches!(r, Err(UserError::DatabaseError(_))));
}

#[test]
fn refresh_for_removed_user_fails_without_user() {
    let mut w = world();
    let resp = register_alice(&mut w);
    // a token whose cache record names a user the store has never seen
    let mut lone_tokens: CacheStore<String> = CacheStore::new();
    let pair = authcore::token::issue_pair(
        &"ghost-user".to_string(),
        &authcore::token::fresh_uuid(),
        KEY,
        NOW,
        &mut lone_tokens,
    )
    .unwrap();
    let r = refresh_token_endpoint(
        &RefreshTokenRequest { refresh_token: pair.refresh },
        &w.dir,
        &mut lone_tokens,
        KEY,
        NOW + 1,
    );
    assert_eq!(r.err(), Some(UserError::NoSuchUserFound));
    let _ = resp;
}

#[test]
fn directory_create_conflicts() {
    let mut dir = UserDirectory::new();
    let req = create_req("carol@example.com", "digest-here", "Carol");
    let now_text = "t".to_string();
    dir.create_user(&"uuid-1".to_string(), &req, &now_text).unwrap();
    let dup_email = dir.create_user(&"uuid-2".to_string(), &req, &now_text);
    assert_eq!(dup_email.err(), Some(UserError::UserAlreadyExists));
    let other = create_req("dave@example.com", "digest-here", "Dave");
    let dup_uuid = dir.create_user(&"uuid-1".to_string(), &other, &now_text);
    assert_eq!(dup_uuid.err(), Some(UserError::UserCreationFailure));
}

#[test]
fn error_status_codes_match_http_mapping() {
    assert_eq!(UserError::InvalidCredentials.status_code(), 401);
    assert_eq!(UserError::UserAlreadyExists.status_code(), 409);
    assert_eq!(UserError::NoSuchUserFound.status_code(), 404);
    assert_eq!(UserError::ValidationError("x".to_string()).status_code(), 400);
    assert_eq!(UserError::TokenCreationFailure.status_code(), 500);
    assert_eq!(
        UserError::ValidationError("bad email".to_string()).message(),
        "Validation error: bad email"
    );
    assert_eq!(UserError::TwoFactorRequired.message(), "2FA is required");
    assert_eq!(authcore::errors::PizzaError::NoPizzasFound.status_code(), 404);
    assert_eq!(authcore::errors::PizzaError::PizzaCreationFailure.status_code(), 500);
    assert_eq!(authcore::errors::TodoError::CacheError.status_code(), 500);
    let app_err = authcore::errors::AppError::not_found("missing".to_string());
    assert_eq!(app_err.status_code, 404);
    assert_eq!(app_err.message, "missing");
}
