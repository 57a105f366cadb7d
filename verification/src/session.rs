//! Session orchestrator: the register, login, refresh and second-factor
//! use cases, composed from the password hasher, the TOTP engine, the
//! backup-code manager and the token service, over a user store and the
//! typed cache stores.
//!
//! The user read-through cache follows the cache-aside discipline:
//! reads try `user:email:<email>` first and fall back to the store;
//! mutations invalidate that key rather than update it.

use vstd::prelude::*;
use vstd::string::StringExecFns;

use crate::backup::{
    format_backup_code, hex_of, is_backup_code, lemma_spec_verify_backup_props, sha256_of,
    spec_verify_backup, strip_separator, verify_backup_code, DEFAULT_BACKUP_CODES_COUNT,
};
use crate::cache::{spec_cache_get, CacheStore, CacheView};
use crate::errors::UserError;
use crate::password::{bcrypt_matches, hash_password, verify_password};
use crate::token::{
    access_claims, fresh_uuid, issue_pair, jwt_parse, redeem_refresh, refresh_claims,
    spec_redeem, TokenPair, ACCESS_TOKEN_HOURS, REFRESH_TOKEN_TTL_SECONDS,
};
use crate::totp::{
    base64_of, generate_qr_code, generate_secret, generate_totp_url, qr_encodable, qr_png_of,
    spec_generated_secret, spec_totp_url, spec_verify_totp, verify_totp, TOTP_PERIOD,
};
use crate::user::{
    check_email, clone_string_vec, valid_create_user, valid_email, valid_login,
    validate_create_user, validate_login, CreateUserRequest, Disable2FARequest, Enable2FARequest,
    Enable2FAResponse, GenerateBackupCodesResponse, LoginRequest, RefreshTokenRequest,
    TokenResponse, UpdateUserRequest, UpdateUserURL, UseBackupCodeForLoginRequest, User,
    UserResponse, UserView, Verify2FARequest, Verify2FAResponse,
};
use crate::userstore::{
    email_taken, lemma_email_canonical, lemma_uuid_canonical, spec_email_index, spec_find_by_email,
    spec_find_by_uuid, spec_uuid_index, UserData,
};

verus! {

/// Lifetime of a cached user record, in seconds.
pub const USER_CACHE_TTL: u64 = 3600;

/// The read-through cache key for a user, by email.
pub open spec fn user_cache_key(email: Seq<char>) -> Seq<char> {
    "user:email:"@ + email
}

/// Builds the user cache key.
pub fn make_user_cache_key(email: &str) -> (r: String)
    ensures
        r@ == user_cache_key(email@),
{
    let mut r = "user:email:".to_owned();
    r.append(email);
    r
}

/// The user a login at time `now` works against: the cached record
/// under the email's key if one is live, else the store's record.
pub open spec fn spec_effective_user(
    c: CacheView<UserView>,
    d: Seq<UserView>,
    email: Seq<char>,
    now: u64,
) -> Option<UserView> {
    match spec_cache_get(c, user_cache_key(email), now) {
        Some(u) => Some(u),
        None => spec_find_by_email(d, email),
    }
}

/// How a login request is decided, in order: field validation, the
/// credential check (an unknown email and a wrong password are
/// indistinguishable by design), then the second-factor gate.
pub ghost enum LoginOutcome {
    Invalid,
    BadCredentials,
    TwoFaRequired,
    BadTwoFa,
    Success(UserView),
}

pub open spec fn spec_login_check(
    c: CacheView<UserView>,
    d: Seq<UserView>,
    email: Seq<char>,
    password: Seq<char>,
    totp_code: Option<Seq<char>>,
    now: u64,
) -> LoginOutcome {
    if !valid_login(email, password) {
        LoginOutcome::Invalid
    } else {
        match spec_effective_user(c, d, email, now) {
            None => LoginOutcome::BadCredentials,
            Some(u) => {
                if !bcrypt_matches(password, u.password) {
                    LoginOutcome::BadCredentials
                } else if u.two_factor_enabled {
                    match totp_code {
                        None => LoginOutcome::TwoFaRequired,
                        Some(code) => match u.two_factor_secret {
                            None => LoginOutcome::TwoFaRequired,
                            Some(secret) => if spec_verify_totp(secret, code, now) {
                                LoginOutcome::Success(u)
                            } else {
                                LoginOutcome::BadTwoFa
                            },
                        },
                    }
                } else {
                    LoginOutcome::Success(u)
                }
            },
        }
    }
}

/// The user cache after a login: on a miss with a matching password
/// the store's record is written through; nothing else changes it.
pub open spec fn spec_login_cache_after(
    c: CacheView<UserView>,
    d: Seq<UserView>,
    email: Seq<char>,
    password: Seq<char>,
    now: u64,
) -> CacheView<UserView> {
    if !valid_login(email, password) {
        c
    } else if spec_cache_get(c, user_cache_key(email), now) is Some {
        c
    } else {
        match spec_find_by_email(d, email) {
            Some(u) => if bcrypt_matches(password, u.password) {
                c.insert(user_cache_key(email), (u, (now + USER_CACHE_TTL) as u64))
            } else {
                c
            },
            None => c,
        }
    }
}

/// What a fresh token pair in a response promises: both tokens carry
/// the right claims and the refresh record was persisted first.
pub open spec fn issued_pair_ok(
    access: Seq<char>,
    refresh: Seq<char>,
    uid: Seq<char>,
    key: Seq<char>,
    now: u64,
    tokens_before: CacheView<Seq<char>>,
    tokens_after: CacheView<Seq<char>>,
) -> bool {
    exists|tid: Seq<char>|
        {
            &&& jwt_parse(refresh, key) == Some(
                refresh_claims(tid, uid, (now + REFRESH_TOKEN_TTL_SECONDS) as u64),
            )
            &&& tokens_after =~= #[trigger] tokens_before.insert(
                tid,
                (uid, (now + REFRESH_TOKEN_TTL_SECONDS) as u64),
            )
        } && jwt_parse(access, key) == Some(
            access_claims(uid, (now + ACCESS_TOKEN_HOURS * 3600) as u64),
        )
}

/// Draws a fresh token id and issues a pair for `user_id`. Should the
/// random id collide with a live record's key, that record is
/// overwritten; the contract does not exclude this vanishingly
/// unlikely case.
fn issue_fresh_pair(user_id: &String, key: &str, now: u64, tokens: &mut CacheStore<String>) -> (r:
    Result<TokenPair, UserError>)
    requires
        old(tokens).wf(),
        now + REFRESH_TOKEN_TTL_SECONDS <= u64::MAX,
    ensures
        final(tokens).wf(),
        r is Ok,
        r matches Ok(p) ==> issued_pair_ok(
            p.access@,
            p.refresh@,
            user_id@,
            key@,
            now,
            old(tokens)@,
            final(tokens)@,
        ),
{
    let tid = fresh_uuid();
    issue_pair(user_id, &tid, key, now, tokens)
}

/// Registers a new account: validates the fields, refuses a taken
/// email, stores the record with the password digest, issues a first
/// token pair, and writes the record through the user cache.
pub fn register<D: UserData>(
    req: &CreateUserRequest,
    dir: &mut D,
    user_cache: &mut CacheStore<User>,
    tokens: &mut CacheStore<String>,
    key: &str,
    now: u64,
    now_text: &String,
) -> (r: Result<UserResponse, UserError>)
    requires
        old(dir).wf(),
        old(user_cache).wf(),
        old(tokens).wf(),
        now + REFRESH_TOKEN_TTL_SECONDS <= u64::MAX,
        now + USER_CACHE_TTL <= u64::MAX,
    ensures
        final(dir).wf(),
        final(user_cache).wf(),
        final(tokens).wf(),
        !valid_create_user(req.email@, req.password@, req.name@) ==> (r matches Err(e) && e matches
            UserError::ValidationError(_) && final(dir)@ == old(dir)@ && final(user_cache)@ == old(user_cache)@ && final(tokens)@ == old(tokens)@),
        valid_create_user(req.email@, req.password@, req.name@) && email_taken(
            old(dir)@,
            req.email@,
        ) ==> (r matches Err(e) && e == UserError::UserAlreadyExists && final(dir)@ == old(dir)@
            && final(user_cache)@ == old(user_cache)@ && final(tokens)@ == old(tokens)@),
        valid_create_user(req.email@, req.password@, req.name@) && !email_taken(
            old(dir)@,
            req.email@,
        ) ==> match r {
            Ok(resp) => exists|u: UserView|
                {
                    &&& #[trigger] u.email == req.email@
                    &&& u.name == req.name@
                    &&& bcrypt_matches(req.password@, u.password)
                    &&& !u.two_factor_enabled
                    &&& final(dir)@ =~= old(dir)@.push(u)
                    &&& resp.user.uuid@ == u.uuid && resp.user.email@ == u.email
                        && resp.user.name@ == u.name && resp.user.two_factor_enabled
                        == u.two_factor_enabled
                    &&& resp.token_type@ == "Bearer"@
                    &&& issued_pair_ok(
                        resp.access_token@,
                        resp.refresh_token@,
                        u.uuid,
                        key@,
                        now,
                        old(tokens)@,
                        final(tokens)@,
                    )
                    &&& final(user_cache)@ =~= old(user_cache)@.insert(
                        user_cache_key(req.email@),
                        (u, (now + USER_CACHE_TTL) as u64),
                    )
                },
            Err(e) => (e == UserError::PasswordHashingFailure || e
                == UserError::UserCreationFailure) && final(dir)@ == old(dir)@ && final(
                user_cache)@ == old(user_cache)@ && final(tokens)@ == old(tokens)@,
        },
{
    if !validate_create_user(req) {
        return Err(UserError::ValidationError("invalid email, password or name".to_owned()));
    }
    match dir.get_user_by_email(&req.email) {
        Ok(_) => {
            return Err(UserError::UserAlreadyExists);
        },
        Err(_) => {},
    }
    let hashed = hash_password(req.password.as_str())?;
    let new_uuid = fresh_uuid();
    let create_req = CreateUserRequest {
        email: req.email.clone(),
        password: hashed,
        name: req.name.clone(),
    };
    let created = match dir.create_user(&new_uuid, &create_req, now_text) {
        Ok(u) => u,
        Err(e) => {
            return Err(e);
        },
    };
    let pair = issue_fresh_pair(&created.uuid, key, now, tokens)?;
    let ckey = make_user_cache_key(req.email.as_str());
    let public = created.without_password();
    user_cache.set(&ckey, created, USER_CACHE_TTL, now);
    Ok(
        UserResponse {
            user: public,
            access_token: pair.access,
            refresh_token: pair.refresh,
            token_type: "Bearer".to_owned(),
        },
    )
}

/// Logs a user in: cache-aside lookup by email, the collapsed
/// credential check, the second-factor gate, then a fresh token pair.
pub fn login<D: UserData>(
    req: &LoginRequest,
    dir: &D,
    user_cache: &mut CacheStore<User>,
    tokens: &mut CacheStore<String>,
    key: &str,
    now: u64,
) -> (r: Result<UserResponse, UserError>)
    requires
        dir.wf(),
        old(user_cache).wf(),
        old(tokens).wf(),
        now + REFRESH_TOKEN_TTL_SECONDS <= u64::MAX,
        now + USER_CACHE_TTL <= u64::MAX,
        now + TOTP_PERIOD <= u64::MAX,
    ensures
        final(user_cache).wf(),
        final(tokens).wf(),
        final(user_cache)@ =~= spec_login_cache_after(
            old(user_cache)@,
            dir@,
            req.email@,
            req.password@,
            now,
        ),
        match spec_login_check(
            old(user_cache)@,
            dir@,
            req.email@,
            req.password@,
            match req.totp_code {
                Some(c) => Some(c@),
                None => None,
            },
            now,
        ) {
            LoginOutcome::Invalid => r matches Err(e) && e matches UserError::ValidationError(_)
                && final(tokens)@ == old(tokens)@,
            LoginOutcome::BadCredentials => r matches Err(e) && e
                == UserError::InvalidCredentials && final(tokens)@ == old(tokens)@,
            LoginOutcome::TwoFaRequired => r matches Err(e) && e == UserError::TwoFactorRequired
                && final(tokens)@ == old(tokens)@,
            LoginOutcome::BadTwoFa => r matches Err(e) && e == UserError::InvalidTwoFactorCode
                && final(tokens)@ == old(tokens)@,
            LoginOutcome::Success(u) => r matches Ok(resp) && resp.user.uuid@ == u.uuid
                && resp.user.email@ == u.email && resp.user.name@ == u.name
                && resp.user.two_factor_enabled == u.two_factor_enabled && resp.token_type@
                == "Bearer"@ && issued_pair_ok(
                resp.access_token@,
                resp.refresh_token@,
                u.uuid,
                key@,
                now,
                old(tokens)@,
                final(tokens)@,
            ),
        },
{
    if !validate_login(req) {
        return Err(UserError::ValidationError("invalid email or password".to_owned()));
    }
    let ckey = make_user_cache_key(req.email.as_str());
    let mut cached: Option<User> = None;
    match user_cache.get(&ckey, now) {
        Some(u) => {
            cached = Some(u.clone_record());
        },
        None => {},
    }
    let user: User = match cached {
        Some(u) => {
            if !verify_password(req.password.as_str(), u.password.as_str()) {
                return Err(UserError::InvalidCredentials);
            }
            u
        },
        None => {
            let u = match dir.get_user_by_email(&req.email) {
                Ok(u) => u,
                Err(_) => {
                    return Err(UserError::InvalidCredentials);
                },
            };
            if !verify_password(req.password.as_str(), u.password.as_str()) {
                return Err(UserError::InvalidCredentials);
            }
            let copy = u.clone_record();
            user_cache.set(&ckey, copy, USER_CACHE_TTL, now);
            u
        },
    };
    if user.two_factor_enabled {
        match &req.totp_code {
            None => {
                return Err(UserError::TwoFactorRequired);
            },
            Some(code) => match &user.two_factor_secret {
                None => {
                    return Err(UserError::TwoFactorRequired);
                },
                Some(secret) => {
                    if !verify_totp(secret.as_str(), code.as_str(), now) {
                        return Err(UserError::InvalidTwoFactorCode);
                    }
                },
            },
        }
    }
    let public = user.without_password();
    let pair = issue_fresh_pair(&user.uuid, key, now, tokens)?;
    Ok(
        UserResponse {
            user: public,
            access_token: pair.access,
            refresh_token: pair.refresh,
            token_type: "Bearer".to_owned(),
        },
    )
}

/// Rotates a session: redeems the single-use refresh token, looks the
/// user up, and issues a fresh pair.
pub fn refresh_token_endpoint<D: UserData>(
    req: &RefreshTokenRequest,
    dir: &D,
    tokens: &mut CacheStore<String>,
    key: &str,
    now: u64,
) -> (r: Result<TokenResponse, UserError>)
    requires
        dir.wf(),
        old(tokens).wf(),
        now + REFRESH_TOKEN_TTL_SECONDS <= u64::MAX,
    ensures
        final(tokens).wf(),
        ({
            let redeemed = spec_redeem(old(tokens)@, req.refresh_token@, key@, now);
            match redeemed.1 {
                None => r matches Err(e) && e == UserError::InvalidRefreshToken && final(tokens)@ =~= redeemed.0,
                Some(uid) => match spec_find_by_uuid(dir@, uid) {
                    None => r matches Err(e) && e == UserError::NoSuchUserFound && final(tokens)@ =~= redeemed.0,
                    Some(u) => r matches Ok(resp) && resp.token_type@ == "Bearer"@
                        && issued_pair_ok(
                        resp.access_token@,
                        resp.refresh_token@,
                        uid,
                        key@,
                        now,
                        redeemed.0,
                        final(tokens)@,
                    ),
                },
            }
        }),
{
    let user_id = redeem_refresh(req.refresh_token.as_str(), key, now, tokens)?;
    let user = dir.get_user_by_uuid(&user_id)?;
    let pair = issue_fresh_pair(&user.uuid, key, now, tokens)?;
    Ok(
        TokenResponse {
            access_token: pair.access,
            refresh_token: pair.refresh,
            token_type: "Bearer".to_owned(),
        },
    )
}

/// Law: the second-factor gate of login. With the password right, a
/// user with 2FA off logs in with no code; the same request against
/// the same user with 2FA on is refused for want of a code.
pub proof fn lemma_login_two_factor_gate(
    c: CacheView<UserView>,
    d: Seq<UserView>,
    u: UserView,
    password: Seq<char>,
    now: u64,
)
    requires
        valid_login(u.email, password),
        spec_effective_user(c, d, u.email, now) == Some(u),
        bcrypt_matches(password, u.password),
    ensures
        !u.two_factor_enabled ==> spec_login_check(c, d, u.email, password, None, now)
            == LoginOutcome::Success(u),
        u.two_factor_enabled ==> spec_login_check(c, d, u.email, password, None, now)
            == LoginOutcome::TwoFaRequired,
{
}

/// The record at the canonical index of `uuid`, after one field-level
/// change `f` and the update stamp.
pub open spec fn dir_after_update(
    d: Seq<UserView>,
    uuid: Seq<char>,
    u2: UserView,
) -> Seq<UserView> {
    d.update(spec_uuid_index(d, uuid), u2)
}

/// Starts 2FA enrollment: checks the password, refuses an already
/// enabled account, draws a secret, stores it pending (the enabled
/// flag stays off until the first code verifies), and answers with the
/// secret and a QR of the provisioning URI. The cached user record is
/// invalidated.
pub fn enable_2fa<D: UserData>(
    uuid: &String,
    req: &Enable2FARequest,
    dir: &mut D,
    user_cache: &mut CacheStore<User>,
    now_text: &String,
) -> (r: Result<Enable2FAResponse, UserError>)
    requires
        old(dir).wf(),
        old(user_cache).wf(),
    ensures
        final(dir).wf(),
        final(user_cache).wf(),
        match spec_find_by_uuid(old(dir)@, uuid@) {
            None => r matches Err(e) && e == UserError::NoSuchUserFound && final(dir)@ == old(dir)@
                && final(user_cache)@ == old(user_cache)@,
            Some(u) => {
                if !bcrypt_matches(req.password@, u.password) {
                    r matches Err(e) && e == UserError::InvalidCredentials && final(dir)@ == old(dir)@
                        && final(user_cache)@ == old(user_cache)@
                } else if u.two_factor_enabled {
                    r matches Err(e) && e == UserError::TwoFactorAlreadyEnabled && final(dir)@
                        == old(dir)@ && final(user_cache)@ == old(user_cache)@
                } else {
                    match r {
                        Ok(resp) => spec_generated_secret(resp.secret@) && qr_encodable(
                            spec_totp_url(resp.secret@, u.email, "Todo App"@),
                        ) && resp.qr_code@ == "data:image/png;base64,"@ + base64_of(
                            qr_png_of(spec_totp_url(resp.secret@, u.email, "Todo App"@)),
                        ) && final(dir)@ =~= dir_after_update(
                            old(dir)@,
                            uuid@,
                            UserView {
                                two_factor_secret: Some(resp.secret@),
                                two_factor_enabled: false,
                                updated_at: now_text@,
                                ..u
                            },
                        ) && final(user_cache)@ =~= old(user_cache)@.remove(user_cache_key(u.email)),
                        Err(e) => e == UserError::QRCodeGenerationFailure && (exists|s: Seq<char>|
                            spec_generated_secret(s) && !(#[trigger] qr_encodable(
                                spec_totp_url(s, u.email, "Todo App"@),
                            ))) && final(dir)@ == old(dir)@ && final(user_cache)@ == old(
                            user_cache)@,
                    }
                }
            },
        },
{
    let user = dir.get_user_by_uuid(uuid)?;
    if !verify_password(req.password.as_str(), user.password.as_str()) {
        return Err(UserError::InvalidCredentials);
    }
    if user.two_factor_enabled {
        return Err(UserError::TwoFactorAlreadyEnabled);
    }
    let secret = generate_secret();
    let totp_url = generate_totp_url(secret.as_str(), user.email.as_str(), "Todo App");
    let qr_code = generate_qr_code(totp_url.as_str())?;
    match dir.enable_2fa(uuid, &secret, now_text) {
        Ok(()) => {},
        Err(e) => {
            return Err(e);
        },
    }
    let ckey = make_user_cache_key(user.email.as_str());
    user_cache.del(&ckey);
    Ok(
        Enable2FAResponse {
            secret,
            qr_code,
            message: "2FA set up. Scan the QR code and verify a code to finish.".to_owned(),
        },
    )
}

/// Confirms a pending enrollment: a correct code turns the enabled
/// flag on. The cached user record is invalidated.
pub fn verify_2fa<D: UserData>(
    uuid: &String,
    req: &Verify2FARequest,
    dir: &mut D,
    user_cache: &mut CacheStore<User>,
    now_text: &String,
    now: u64,
) -> (r: Result<Verify2FAResponse, UserError>)
    requires
        old(dir).wf(),
        old(user_cache).wf(),
        now + TOTP_PERIOD <= u64::MAX,
    ensures
        final(dir).wf(),
        final(user_cache).wf(),
        match spec_find_by_uuid(old(dir)@, uuid@) {
            None => r matches Err(e) && e == UserError::NoSuchUserFound && final(dir)@ == old(dir)@
                && final(user_cache)@ == old(user_cache)@,
            Some(u) => match u.two_factor_secret {
                None => r matches Err(e) && e == UserError::TwoFactorNotEnabled && final(dir)@
                    == old(dir)@ && final(user_cache)@ == old(user_cache)@,
                Some(secret) => {
                    if !spec_verify_totp(secret, req.code@, now) {
                        r matches Err(e) && e == UserError::InvalidTwoFactorCode && final(dir)@
                            == old(dir)@ && final(user_cache)@ == old(user_cache)@
                    } else {
                        r matches Ok(resp) && resp.success && final(dir)@ =~= dir_after_update(
                            old(dir)@,
                            uuid@,
                            UserView { two_factor_enabled: true, updated_at: now_text@, ..u },
                        ) && final(user_cache)@ =~= old(user_cache)@.remove(user_cache_key(u.email))
                    }
                },
            },
        },
{
    let user = dir.get_user_by_uuid(uuid)?;
    let secret = match &user.two_factor_secret {
        Some(s) => s,
        None => {
            return Err(UserError::TwoFactorNotEnabled);
        },
    };
    if !verify_totp(secret.as_str(), req.code.as_str(), now) {
        return Err(UserError::InvalidTwoFactorCode);
    }
    match dir.verify_2fa(uuid, now_text) {
        Ok(()) => {},
        Err(e) => {
            return Err(e);
        },
    }
    let ckey = make_user_cache_key(user.email.as_str());
    user_cache.del(&ckey);
    Ok(
        Verify2FAResponse {
            success: true,
            message: "2FA verified and enabled.".to_owned(),
        },
    )
}

/// Turns 2FA off: the password and a correct current code are both
/// required; the stored secret is discarded. The cached user record is
/// invalidated.
pub fn disable_2fa<D: UserData>(
    uuid: &String,
    req: &Disable2FARequest,
    dir: &mut D,
    user_cache: &mut CacheStore<User>,
    now_text: &String,
    now: u64,
) -> (r: Result<Verify2FAResponse, UserError>)
    requires
        old(dir).wf(),
        old(user_cache).wf(),
        now + TOTP_PERIOD <= u64::MAX,
    ensures
        final(dir).wf(),
        final(user_cache).wf(),
        match spec_find_by_uuid(old(dir)@, uuid@) {
            None => r matches Err(e) && e == UserError::NoSuchUserFound && final(dir)@ == old(dir)@
                && final(user_cache)@ == old(user_cache)@,
            Some(u) => {
                if !bcrypt_matches(req.password@, u.password) {
                    r matches Err(e) && e == UserError::InvalidCredentials && final(dir)@
                        == old(dir)@ && final(user_cache)@ == old(user_cache)@
                } else if !u.two_factor_enabled || u.two_factor_secret is None {
                    r matches Err(e) && e == UserError::TwoFactorNotEnabled && final(dir)@
                        == old(dir)@ && final(user_cache)@ == old(user_cache)@
                } else if !spec_verify_totp(u.two_factor_secret->Some_0, req.code@, now) {
                    r matches Err(e) && e == UserError::InvalidTwoFactorCode && final(dir)@
                        == old(dir)@ && final(user_cache)@ == old(user_cache)@
                } else {
                    r matches Ok(resp) && resp.success && final(dir)@ =~= dir_after_update(
                        old(dir)@,
                        uuid@,
                        UserView {
                            two_factor_enabled: false,
                            two_factor_secret: None,
                            updated_at: now_text@,
                            ..u
                        },
                    ) && final(user_cache)@ =~= old(user_cache)@.remove(user_cache_key(u.email))
                }
            },
        },
{
    let user = dir.get_user_by_uuid(uuid)?;
    if !verify_password(req.password.as_str(), user.password.as_str()) {
        return Err(UserError::InvalidCredentials);
    }
    if !user.two_factor_enabled {
        return Err(UserError::TwoFactorNotEnabled);
    }
    let secret = match &user.two_factor_secret {
        Some(s) => s,
        None => {
            return Err(UserError::TwoFactorNotEnabled);
        },
    };
    if !verify_totp(secret.as_str(), req.code.as_str(), now) {
        return Err(UserError::InvalidTwoFactorCode);
    }
    match dir.disable_2fa(uuid, now_text) {
        Ok(()) => {},
        Err(e) => {
            return Err(e);
        },
    }
    let ckey = make_user_cache_key(user.email.as_str());
    user_cache.del(&ckey);
    Ok(
        Verify2FAResponse {
            success: true,
            message: "2FA disabled.".to_owned(),
        },
    )
}

/// A stored digest and a displayed code that came from one fresh
/// plaintext: the digest is of the code whose dash-formatted form is
/// shown.
pub open spec fn digest_displayed(digest: Seq<char>, shown: Seq<char>) -> bool {
    exists|p: Seq<char>|
        is_backup_code(p) && digest == hex_of(#[trigger] sha256_of(p)) && shown == p.subrange(0, 5)
            + "-"@ + p.subrange(5, 10)
}

/// The stored digests `h` and the dash-formatted display list shown to
/// the user come from one batch of fresh codes: digest `i` is of the
/// code displayed at `i`.
pub open spec fn backup_codes_displayed(h: Seq<Seq<char>>, shown: Seq<Seq<char>>) -> bool {
    shown.len() == h.len() && forall|i: int|
        0 <= i < h.len() ==> #[trigger] digest_displayed(h[i], shown[i])
}

/// Regenerates the one-time backup codes: a correct current TOTP code
/// is required; the stored digest set is replaced wholesale, which
/// invalidates every previously issued code. The response carries the
/// plaintext codes, dash-formatted for display, shown this once only.
pub fn generate_backup_codes<D: UserData>(
    uuid: &String,
    req: &Verify2FARequest,
    dir: &mut D,
    user_cache: &mut CacheStore<User>,
    now_text: &String,
    now: u64,
) -> (r: Result<GenerateBackupCodesResponse, UserError>)
    requires
        old(dir).wf(),
        old(user_cache).wf(),
        now + TOTP_PERIOD <= u64::MAX,
    ensures
        final(dir).wf(),
        final(user_cache).wf(),
        match spec_find_by_uuid(old(dir)@, uuid@) {
            None => r matches Err(e) && e == UserError::NoSuchUserFound && final(dir)@ == old(dir)@
                && final(user_cache)@ == old(user_cache)@,
            Some(u) => {
                if !u.two_factor_enabled || u.two_factor_secret is None {
                    r matches Err(e) && e matches UserError::BadRequest(_) && final(dir)@
                        == old(dir)@ && final(user_cache)@ == old(user_cache)@
                } else if !spec_verify_totp(u.two_factor_secret->Some_0, req.code@, now) {
                    r matches Err(e) && e matches UserError::BadRequest(m) && m@
                        == "Invalid 2FA code"@ && final(dir)@ == old(dir)@ && final(user_cache)@
                        == old(user_cache)@
                } else {
                    r matches Ok(resp) && {
                        let k = spec_uuid_index(old(dir)@, uuid@);
                        &&& final(dir)@[k].backup_codes matches Some(h) && {
                            &&& h.len() == DEFAULT_BACKUP_CODES_COUNT
                            &&& backup_codes_displayed(h, resp.backup_codes.deep_view())
                        }
                        &&& final(dir)@ =~= old(dir)@.update(
                            k,
                            UserView {
                                backup_codes: final(dir)@[k].backup_codes,
                                updated_at: now_text@,
                                ..u
                            },
                        )
                        &&& final(user_cache)@ =~= old(user_cache)@.remove(user_cache_key(u.email))
                    }
                }
            },
        },
{
    let ghost d0 = dir@;
    let user = dir.get_user_by_uuid(uuid)?;
    if !user.two_factor_enabled {
        return Err(UserError::BadRequest("2FA is not enabled for this user".to_owned()));
    }
    let secret = match &user.two_factor_secret {
        Some(s) => s,
        None => {
            return Err(UserError::BadRequest("2FA secret not found".to_owned()));
        },
    };
    if !verify_totp(secret.as_str(), req.code.as_str(), now) {
        return Err(UserError::BadRequest("Invalid 2FA code".to_owned()));
    }
    proof {
        dir.wf_unique();
    }
    let ghost k = spec_uuid_index(d0, uuid@);
    let mut cleared = user.clone_record();
    cleared.backup_codes = None;
    let mid_user = match dir.update_user(&cleared, now_text) {
        Ok(u1) => u1,
        Err(e) => {
            proof {
                let j = choose|j: int|
                    0 <= j < d0.len() && j != spec_uuid_index(d0, cleared@.uuid) && d0[j].email
                        == cleared@.email;
                assert(d0[j].email != d0[k].email);
            }
            return Err(e);
        },
    };
    let (plain, hashed) = crate::backup::generate_backup_codes(None);
    let mut formatted: Vec<String> = Vec::new();
    let n = plain.len();
    for i in 0..n
        invariant
            n == plain@.len(),
            formatted@.len() == i,
            forall|j: int| 0 <= j < plain@.len() ==> is_backup_code((#[trigger] plain@[j])@),
            forall|j: int|
                0 <= j < i ==> (#[trigger] formatted@[j])@ == plain@[j]@.subrange(0, 5) + "-"@
                    + plain@[j]@.subrange(5, 10),
    {
        formatted.push(format_backup_code(plain[i].as_str()));
    }
    let ghost hseq = hashed.deep_view();
    let ghost hvec = hashed@;
    let mut stored = mid_user.clone_record();
    stored.backup_codes = Some(hashed);
    proof {
        assert(stored@.backup_codes == Some(hseq));
        assert(d0[k].uuid == uuid@);
        assert(stored@.uuid == uuid@);
        dir.wf_unique();
        lemma_uuid_canonical(dir@, uuid@, k);
    }
    let ghost d1 = dir@;
    match dir.update_user(&stored, now_text) {
        Ok(_) => {},
        Err(e) => {
            proof {
                let j = choose|j: int|
                    0 <= j < d1.len() && j != spec_uuid_index(d1, stored@.uuid) && d1[j].email
                        == stored@.email;
                assert(d1[j].email != d1[k].email);
            }
            return Err(e);
        },
    }
    let ckey = make_user_cache_key(user.email.as_str());
    user_cache.del(&ckey);
    proof {
        assert(dir@[k].backup_codes == Some(hseq));
        assert(dir@ =~= d0.update(
            k,
            UserView { backup_codes: Some(hseq), updated_at: now_text@, ..d0[k] },
        ));
        assert(formatted.deep_view().len() == formatted@.len());
        assert(hseq.len() == hvec.len());
        assert forall|i: int| 0 <= i < hseq.len() implies #[trigger] digest_displayed(
            hseq[i],
            formatted.deep_view()[i],
        ) by {
            let p = plain@[i]@;
            assert(formatted.deep_view()[i] == formatted@[i]@);
            assert(hseq[i] == hvec[i]@);
            assert(is_backup_code(p) && hvec[i]@ == hex_of(sha256_of(p)) && formatted@[i]@
                == p.subrange(0, 5) + "-"@ + p.subrange(5, 10));
        }
        assert(backup_codes_displayed(hseq, formatted.deep_view()));
    }
    Ok(
        GenerateBackupCodesResponse {
            backup_codes: formatted,
            message: "Backup codes generated successfully".to_owned(),
        },
    )
}

/// Logs in with a one-time backup code in place of a TOTP code: the
/// matched digest is removed from the stored set before the session is
/// issued, so the same code is refused a second time.
pub fn login_with_backup_code<D: UserData>(
    req: &UseBackupCodeForLoginRequest,
    dir: &mut D,
    user_cache: &mut CacheStore<User>,
    tokens: &mut CacheStore<String>,
    key: &str,
    now: u64,
    now_text: &String,
) -> (r: Result<UserResponse, UserError>)
    requires
        old(dir).wf(),
        old(user_cache).wf(),
        old(tokens).wf(),
        now + REFRESH_TOKEN_TTL_SECONDS <= u64::MAX,
    ensures
        final(dir).wf(),
        final(user_cache).wf(),
        final(tokens).wf(),
        match spec_find_by_email(old(dir)@, req.email@) {
            None => r matches Err(e) && e == UserError::NoSuchUserFound && final(dir)@ == old(dir)@
                && final(user_cache)@ == old(user_cache)@ && final(tokens)@ == old(tokens)@,
            Some(u) => {
                if !bcrypt_matches(req.password@, u.password) {
                    r matches Err(e) && e matches UserError::BadRequest(m) && m@
                        == "Invalid email or password"@ && final(dir)@ == old(dir)@ && final(user_cache)@ == old(user_cache)@ && final(tokens)@ == old(tokens)@
                } else if !u.two_factor_enabled {
                    r matches Err(e) && e matches UserError::BadRequest(m) && m@
                        == "2FA is not enabled for this user"@ && final(dir)@ == old(dir)@
                        && final(user_cache)@ == old(user_cache)@ && final(tokens)@ == old(tokens)@
                } else if u.backup_codes is None || u.backup_codes->Some_0.len() == 0 {
                    r matches Err(e) && e matches UserError::BadRequest(m) && m@
                        == "No backup codes available"@ && final(dir)@ == old(dir)@ && final(user_cache)@ == old(user_cache)@ && final(tokens)@ == old(tokens)@
                } else {
                    let codes = u.backup_codes->Some_0;
                    let stripped = req.backup_code@.filter(|c: char| c != '-');
                    match spec_verify_backup(hex_of(sha256_of(stripped)), codes) {
                        None => r matches Err(e) && e matches UserError::BadRequest(m) && m@
                            == "Invalid backup code"@ && final(dir)@ == old(dir)@ && final(user_cache)@ == old(user_cache)@ && final(tokens)@ == old(tokens)@,
                        Some(i) => {
                            &&& final(dir)@ =~= dir_after_update(
                                old(dir)@,
                                u.uuid,
                                UserView {
                                    backup_codes: Some(codes.remove(i)),
                                    updated_at: now_text@,
                                    ..u
                                },
                            )
                            &&& final(user_cache)@ =~= old(user_cache)@.remove(
                                user_cache_key(u.email),
                            )
                            &&& r matches Ok(resp) && resp.user.uuid@ == u.uuid
                                && resp.user.email@ == u.email && resp.token_type@ == "Bearer"@
                                && issued_pair_ok(
                                resp.access_token@,
                                resp.refresh_token@,
                                u.uuid,
                                key@,
                                now,
                                old(tokens)@,
                                final(tokens)@,
                            )
                        },
                    }
                }
            },
        },
{
    let ghost d0 = dir@;
    let user = dir.get_user_by_email(&req.email)?;
    if !verify_password(req.password.as_str(), user.password.as_str()) {
        return Err(UserError::BadRequest("Invalid email or password".to_owned()));
    }
    if !user.two_factor_enabled {
        return Err(UserError::BadRequest("2FA is not enabled for this user".to_owned()));
    }
    let has_codes = match &user.backup_codes {
        Some(codes) => codes.len() > 0,
        None => false,
    };
    if !has_codes {
        return Err(UserError::BadRequest("No backup codes available".to_owned()));
    }
    let stripped = strip_separator(req.backup_code.as_str());
    let index = match &user.backup_codes {
        Some(codes) => verify_backup_code(stripped.as_str(), codes),
        None => None,
    };
    let index = match index {
        Some(i) => i,
        None => {
            return Err(UserError::BadRequest("Invalid backup code".to_owned()));
        },
    };
    proof {
        lemma_spec_verify_backup_props(
            hex_of(sha256_of(stripped@)),
            user@.backup_codes->Some_0,
        );
    }
    let mut updated_codes = match &user.backup_codes {
        Some(codes) => clone_string_vec(codes),
        None => Vec::new(),
    };
    updated_codes.remove(index);
    proof {
        assert(updated_codes.deep_view() =~= user@.backup_codes->Some_0.remove(index as int));
        dir.wf_unique();
        lemma_uuid_canonical(d0, user@.uuid, spec_uuid_index(d0, user@.uuid));
    }
    let mut updated_user = user.clone_record();
    updated_user.backup_codes = Some(updated_codes);
    let ghost k = spec_uuid_index(d0, user@.uuid);
    proof {
        lemma_email_canonical(d0, req.email@, spec_email_index(d0, req.email@));
        assert(d0[spec_email_index(d0, req.email@)] == user@);
        assert(d0[k] == user@) by {
            if k != spec_email_index(d0, req.email@) {
                assert(d0[k].uuid != d0[spec_email_index(d0, req.email@)].uuid);
            }
        }
    }
    match dir.update_user(&updated_user, now_text) {
        Ok(_) => {},
        Err(e) => {
            proof {
                let j = choose|j: int|
                    0 <= j < d0.len() && j != spec_uuid_index(d0, updated_user@.uuid)
                        && d0[j].email == updated_user@.email;
                assert(d0[j].email != d0[k].email);
            }
            return Err(e);
        },
    }
    let ckey = make_user_cache_key(user.email.as_str());
    user_cache.del(&ckey);
    let public = user.without_password();
    let pair = issue_fresh_pair(&user.uuid, key, now, tokens)?;
    Ok(
        UserResponse {
            user: public,
            access_token: pair.access,
            refresh_token: pair.refresh,
            token_type: "Bearer".to_owned(),
        },
    )
}

/// Changes a user's email address, leaving every other field alone;
/// an email held by another account is refused. Both the old and the
/// new email's cached records are invalidated.
pub fn update_user<D: UserData>(
    url: &UpdateUserURL,
    req: &UpdateUserRequest,
    dir: &mut D,
    user_cache: &mut CacheStore<User>,
    now_text: &String,
) -> (r: Result<User, UserError>)
    requires
        old(dir).wf(),
        old(user_cache).wf(),
    ensures
        final(dir).wf(),
        final(user_cache).wf(),
        !valid_email(req.email@) ==> (r matches Err(e) && e matches UserError::ValidationError(_)
            && final(dir)@ == old(dir)@ && final(user_cache)@ == old(user_cache)@),
        valid_email(req.email@) ==> match spec_find_by_uuid(old(dir)@, url.uuid@) {
            None => r matches Err(e) && e == UserError::NoSuchUserFound && final(dir)@ == old(dir)@
                && final(user_cache)@ == old(user_cache)@,
            Some(u) => {
                if exists|j: int|
                    0 <= j < old(dir)@.len() && (#[trigger] old(dir)@[j]).email == req.email@
                        && old(dir)@[j].uuid != u.uuid {
                    r matches Err(e) && e matches UserError::DatabaseError(_) && final(dir)@
                        == old(dir)@ && final(user_cache)@ == old(user_cache)@
                } else {
                    r matches Ok(u2) && u2@ == (UserView {
                        email: req.email@,
                        updated_at: now_text@,
                        ..u
                    }) && final(dir)@ =~= dir_after_update(old(dir)@, url.uuid@, u2@) && final(user_cache)@ =~= old(user_cache)@.remove(user_cache_key(u.email)).remove(
                        user_cache_key(req.email@),
                    )
                }
            },
        },
{
    let ghost d0 = dir@;
    if !check_email(req.email.as_str()) {
        return Err(UserError::ValidationError("invalid email".to_owned()));
    }
    let user = dir.get_user_by_uuid(&url.uuid)?;
    let mut updated = user.clone_record();
    updated.email = req.email.clone();
    proof {
        dir.wf_unique();
        lemma_uuid_canonical(d0, url.uuid@, spec_uuid_index(d0, url.uuid@));
    }
    let ghost k = spec_uuid_index(d0, url.uuid@);
    let result = match dir.update_user(&updated, now_text) {
        Ok(u2) => u2,
        Err(e) => {
            proof {
                if e matches UserError::DatabaseError(_) {
                    let j = choose|j: int|
                        0 <= j < d0.len() && j != spec_uuid_index(d0, updated@.uuid) && d0[j].email
                            == updated@.email;
                    assert(d0[j].uuid != d0[k].uuid);
                }
            }
            return Err(e);
        },
    };
    proof {
        assert forall|j: int|
            0 <= j < d0.len() && (#[trigger] d0[j]).email == req.email@ implies d0[j].uuid
            == d0[k].uuid by {
            if j != k {
                assert(d0[j].email != updated@.email);
            }
        }
    }
    let old_key = make_user_cache_key(user.email.as_str());
    user_cache.del(&old_key);
    let new_key = make_user_cache_key(req.email.as_str());
    user_cache.del(&new_key);
    Ok(result)
}

} // verus!
