//! Token service: minting of access/refresh pairs and single-use
//! redemption of refresh tokens against the cache store.
//!
//! An access token binds a user id for about an hour and is stateless.
//! A refresh token's subject is a random token id, not the user id; the
//! token is live exactly while a `token_id -> user_id` record sits in
//! the cache store, and redeeming it consumes that record atomically.

use vstd::prelude::*;
use vstd::string::StringExecFns;

use crate::cache::{spec_cache_get, CacheStore, CacheView};
use crate::errors::UserError;

verus! {

/// Lifetime of an access token, in hours.
pub const ACCESS_TOKEN_HOURS: u64 = 1;

/// Lifetime of a refresh token, in hours.
pub const REFRESH_TOKEN_HOURS: u64 = 24 * 7;

/// Lifetime of the cache record backing a refresh token, in seconds.
pub const REFRESH_TOKEN_TTL_SECONDS: u64 = 7 * 24 * 60 * 60;

/// The claim set carried by a signed token.
pub struct Claims {
    /// Subject: the user id for access tokens, a random token id for
    /// refresh tokens.
    pub sub: String,
    /// Expiry instant, seconds since the epoch.
    pub exp: u64,
    /// Either "access" or "refresh".
    pub token_type: String,
    /// The user id a refresh token belongs to; absent on access tokens.
    pub user_id: Option<String>,
}

/// Mathematical image of a claim set.
pub ghost struct ClaimsView {
    pub sub: Seq<char>,
    pub exp: u64,
    pub token_type: Seq<char>,
    pub user_id: Option<Seq<char>>,
}

impl View for Claims {
    type V = ClaimsView;

    open spec fn view(&self) -> ClaimsView {
        ClaimsView {
            sub: self.sub@,
            exp: self.exp,
            token_type: self.token_type@,
            user_id: match self.user_id {
                Some(u) => Some(u@),
                None => None,
            },
        }
    }
}

/// The claims a signed token carries under a key, or `None` where the
/// token is malformed or not signed with that key. Expiry plays no part
/// here; callers check it against their own clock.
pub uninterp spec fn jwt_parse(token: Seq<char>, key: Seq<char>) -> Option<ClaimsView>;

/// Relies on jsonwebtoken::encode (HS256, default header): the token is
/// a function of the claims and key alone, and decoding it with the same
/// key yields exactly these claims, which is the crate's encode/decode
/// round trip. Encoding cannot fail: the header and the string/number
/// claim map serialize infallibly, and the HMAC signer accepts any key
/// and always signs.
#[verifier::external_body]
fn jwt_encode(sub: &str, exp: u64, token_type: &str, user_id: Option<&String>, key: &str) -> (r:
    Result<String, ()>)
    ensures
        r is Ok,
        r matches Ok(t) ==> jwt_parse(t@, key@) == Some(
            ClaimsView {
                sub: sub@,
                exp,
                token_type: token_type@,
                user_id: match user_id {
                    Some(u) => Some(u@),
                    None => None,
                },
            },
        ),
{
    let mut m = serde_json::Map::new();
    m.insert("sub".to_string(), serde_json::Value::from(sub));
    m.insert("exp".to_string(), serde_json::Value::from(exp));
    m.insert("token_type".to_string(), serde_json::Value::from(token_type));
    if let Some(u) = user_id {
        m.insert("user_id".to_string(), serde_json::Value::from(u.as_str()));
    }
    let key = jsonwebtoken::EncodingKey::from_secret(key.as_bytes());
    jsonwebtoken::encode(&jsonwebtoken::Header::default(), &m, &key).map_err(|_| ())
}

/// Relies on jsonwebtoken::decode (HS256): with expiry validation turned
/// off the outcome is a function of token and key alone, here named
/// `jwt_parse`; verified callers enforce expiry against their own clock.
#[verifier::external_body]
fn jwt_decode(token: &str, key: &str) -> (r: Option<Claims>)
    ensures
        match r {
            Some(c) => jwt_parse(token@, key@) == Some(c@),
            None => jwt_parse(token@, key@) is None,
        },
{
    let mut v = jsonwebtoken::Validation::new(jsonwebtoken::Algorithm::HS256);
    v.validate_exp = false;
    let k = jsonwebtoken::DecodingKey::from_secret(key.as_bytes());
    let d = jsonwebtoken::decode::<serde_json::Value>(token, &k, &v).ok()?;
    let c = d.claims;
    Some(Claims {
        sub: c.get("sub")?.as_str()?.to_string(),
        exp: c.get("exp")?.as_u64()?,
        token_type: c.get("token_type")?.as_str()?.to_string(),
        user_id: match c.get("user_id") {
            Some(u) => Some(u.as_str()?.to_string()),
            None => None,
        },
    })
}

/// Relies on uuid::Uuid::new_v4/to_string: a freshly drawn random id
/// in hyphenated form, which is 36 characters long. It serves as a
/// user id at registration and as a refresh token's subject.
#[verifier::external_body]
pub fn fresh_uuid() -> (r: String)
    ensures
        r@.len() == 36,
{
    uuid::Uuid::new_v4().to_string()
}

/// Mints one signed token. The expiry is `now` plus the requested
/// number of hours. Minting always succeeds: HMAC signing has no
/// failure path.
pub fn generate_jwt_token(
    subject: &str,
    token_type: &str,
    expires_in_hours: u64,
    user_id: Option<&String>,
    key: &str,
    now: u64,
) -> (r: Result<String, UserError>)
    requires
        now + expires_in_hours * 3600 <= u64::MAX,
    ensures
        r is Ok,
        r matches Ok(t) ==> jwt_parse(t@, key@) == Some(
            ClaimsView {
                sub: subject@,
                exp: (now + expires_in_hours * 3600) as u64,
                token_type: token_type@,
                user_id: match user_id {
                    Some(u) => Some(u@),
                    None => None,
                },
            },
        ),
{
    let exp = now + expires_in_hours * 3600;
    match jwt_encode(subject, exp, token_type, user_id, key) {
        Ok(t) => Ok(t),
        Err(_) => Err(UserError::TokenCreationFailure),
    }
}

/// An access/refresh pair as handed to a client.
pub struct TokenPair {
    pub access: String,
    pub refresh: String,
}

/// The claims of a good refresh token for `tid`/`uid` expiring at `exp`.
pub open spec fn refresh_claims(tid: Seq<char>, uid: Seq<char>, exp: u64) -> ClaimsView {
    ClaimsView { sub: tid, exp, token_type: "refresh"@, user_id: Some(uid) }
}

/// The claims of a good access token for `uid` expiring at `exp`.
pub open spec fn access_claims(uid: Seq<char>, exp: u64) -> ClaimsView {
    ClaimsView { sub: uid, exp, token_type: "access"@, user_id: None }
}

/// Issues an access/refresh pair for `user_id` under the fresh id
/// `token_id`, persisting the `token_id -> user_id` record before the
/// pair is returned. Issuance always succeeds: minting cannot fail and
/// the store accepts every record.
pub fn issue_pair(
    user_id: &String,
    token_id: &String,
    key: &str,
    now: u64,
    cache: &mut CacheStore<String>,
) -> (r: Result<TokenPair, UserError>)
    requires
        old(cache).wf(),
        now + REFRESH_TOKEN_TTL_SECONDS <= u64::MAX,
    ensures
        final(cache).wf(),
        r is Ok,
        r matches Ok(p) ==> {
            &&& jwt_parse(p.access@, key@) == Some(
                access_claims(user_id@, (now + ACCESS_TOKEN_HOURS * 3600) as u64),
            )
            &&& jwt_parse(p.refresh@, key@) == Some(
                refresh_claims(token_id@, user_id@, (now + REFRESH_TOKEN_TTL_SECONDS) as u64),
            )
            &&& final(cache)@ =~= old(cache)@.insert(
                token_id@,
                (user_id@, (now + REFRESH_TOKEN_TTL_SECONDS) as u64),
            )
        },
{
    let access = generate_jwt_token(user_id.as_str(), "access", ACCESS_TOKEN_HOURS, None, key, now)?;
    let refresh = generate_jwt_token(
        token_id.as_str(),
        "refresh",
        REFRESH_TOKEN_HOURS,
        Some(user_id),
        key,
        now,
    )?;
    cache.set(token_id, user_id.clone(), REFRESH_TOKEN_TTL_SECONDS, now);
    Ok(TokenPair { access, refresh })
}

/// What redeeming `token` at time `now` does to a store holding `m`:
/// the store afterwards, and the user id on success. The token must
/// parse under `key`, carry type "refresh", an embedded user id and an
/// unexpired instant; then the record under its subject is consumed,
/// and redemption succeeds exactly when that record was live and named
/// the same user. Replay and expiry are indistinguishable by design.
pub open spec fn spec_redeem(m: CacheView<Seq<char>>, token: Seq<char>, key: Seq<char>, now: u64) -> (
    CacheView<Seq<char>>,
    Option<Seq<char>>,
) {
    match jwt_parse(token, key) {
        None => (m, None::<Seq<char>>),
        Some(c) => {
            if c.token_type != "refresh"@ || c.exp <= now || c.user_id is None {
                (m, None)
            } else {
                match spec_cache_get(m, c.sub, now) {
                    Some(stored) => if stored == c.user_id->Some_0 {
                        (m.remove(c.sub), Some(stored))
                    } else {
                        (m.remove(c.sub), None)
                    },
                    None => (m.remove(c.sub), None),
                }
            }
        },
    }
}

/// Validates a refresh token and consumes its one-shot record: an
/// atomic read-then-delete keyed by the token's subject. A second
/// redemption of the same token finds no record and fails with the
/// same error as a tampered or expired one.
pub fn redeem_refresh(token: &str, key: &str, now: u64, cache: &mut CacheStore<String>) -> (r: Result<
    String,
    UserError,
>)
    requires
        old(cache).wf(),
    ensures
        final(cache).wf(),
        final(cache)@ =~= spec_redeem(old(cache)@, token@, key@, now).0,
        r matches Ok(uid) ==> spec_redeem(old(cache)@, token@, key@, now).1 == Some(uid@),
        r matches Err(e) ==> spec_redeem(old(cache)@, token@, key@, now).1 is None && e
            == UserError::InvalidRefreshToken,
{
    let claims = match jwt_decode(token, key) {
        Some(c) => c,
        None => {
            return Err(UserError::InvalidRefreshToken);
        },
    };
    if !(claims.token_type == "refresh".to_owned()) {
        return Err(UserError::InvalidRefreshToken);
    }
    if claims.exp <= now {
        return Err(UserError::InvalidRefreshToken);
    }
    let user_id = match claims.user_id {
        Some(u) => u,
        None => {
            return Err(UserError::InvalidRefreshToken);
        },
    };
    match cache.get_del(&claims.sub, now) {
        Some(stored) => {
            if stored == user_id {
                Ok(stored)
            } else {
                Err(UserError::InvalidRefreshToken)
            }
        },
        None => Err(UserError::InvalidRefreshToken),
    }
}

/// Whom an access token authenticates at time `now`: its subject, if it
/// parses under `key`, has type "access" and is not expired.
pub open spec fn spec_validate_access(token: Seq<char>, key: Seq<char>, now: u64) -> Option<
    Seq<char>,
> {
    match jwt_parse(token, key) {
        None => None::<Seq<char>>,
        Some(c) => {
            if c.token_type == "access"@ && c.exp > now {
                Some(c.sub)
            } else {
                None
            }
        },
    }
}

/// The bearer-token check of the request guard: returns the user id an
/// access token proves, rejecting refresh tokens and expired tokens.
pub fn validate_access_token(token: &str, key: &str, now: u64) -> (r: Result<String, UserError>)
    ensures
        r matches Ok(uid) ==> spec_validate_access(token@, key@, now) == Some(uid@),
        r matches Err(e) ==> spec_validate_access(token@, key@, now) is None && e
            == UserError::AuthenticationFailure,
{
    let claims = match jwt_decode(token, key) {
        Some(c) => c,
        None => {
            return Err(UserError::AuthenticationFailure);
        },
    };
    if claims.token_type == "access".to_owned() && claims.exp > now {
        Ok(claims.sub)
    } else {
        Err(UserError::AuthenticationFailure)
    }
}

/// Law: a refresh token out of a successful issuance redeems exactly
/// once. Against the store the issuance wrote, an unexpired redemption
/// returns the issuing user and consumes the record; a second
/// redemption of the same token, at any time, fails.
pub proof fn lemma_refresh_single_use(
    m0: CacheView<Seq<char>>,
    token: Seq<char>,
    key: Seq<char>,
    tid: Seq<char>,
    uid: Seq<char>,
    exp: u64,
    t1: u64,
    t2: u64,
)
    requires
        jwt_parse(token, key) == Some(refresh_claims(tid, uid, exp)),
        t1 < exp,
    ensures
        spec_redeem(m0.insert(tid, (uid, exp)), token, key, t1) == (
            m0.insert(tid, (uid, exp)).remove(tid),
            Some(uid),
        ),
        spec_redeem(m0.insert(tid, (uid, exp)).remove(tid), token, key, t2).1 is None,
{
    let m1 = m0.insert(tid, (uid, exp));
    assert(spec_cache_get(m1, tid, t1) == Some(uid));
    assert(!m1.remove(tid).contains_key(tid));
}

} // verus!
