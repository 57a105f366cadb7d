//! TOTP engine: secret generation, provisioning URI and QR rendering,
//! and time-step code verification with a clock-skew tolerance of one
//! 30-second step on either side.
//!
//! Verification is stateless: a correct code is never consumed and
//! stays valid for its whole window; single use is not promised here.

use vstd::prelude::*;
use vstd::string::StringExecFns;

use crate::errors::UserError;

verus! {

/// Length of one time step, in seconds.
pub const TOTP_PERIOD: u64 = 30;

/// Byte length of a fresh shared secret.
pub const TOTP_SECRET_BYTES: usize = 16;

/// A character of the base32 alphabet: an upper-case letter or a
/// digit from two to seven.
pub open spec fn is_base32_char(c: char) -> bool {
    ('A' <= c && c <= 'Z') || ('2' <= c && c <= '7')
}

/// The base32 (no padding) encoding of a byte string.
pub uninterp spec fn base32_nopad_of(b: Seq<u8>) -> Seq<char>;

/// The byte string a base32 (no padding) text decodes to, if any.
pub uninterp spec fn base32_parse(s: Seq<char>) -> Option<Seq<u8>>;

/// The 6-digit code for a secret at a 30-second step index.
pub uninterp spec fn totp_code(secret: Seq<u8>, step: u64) -> Seq<char>;

/// The percent-encoding of a text.
pub uninterp spec fn urlenc_of(s: Seq<char>) -> Seq<char>;

/// Whether a text fits into some QR version at the fixed error
/// correction level; rendering succeeds exactly for such texts.
pub uninterp spec fn qr_encodable(s: Seq<char>) -> bool;

/// The PNG rendering of a text's QR symbol at the fixed low error
/// correction level and 1024-pixel size.
pub uninterp spec fn qr_png_of(s: Seq<char>) -> Seq<u8>;

/// The standard base64 encoding of a byte string.
pub uninterp spec fn base64_of(b: Seq<u8>) -> Seq<char>;

/// Relies on rand::random::<u8> for each byte: uniformly random data;
/// nothing but the length can be promised of it.
#[verifier::external_body]
fn random_bytes(n: usize) -> (r: Vec<u8>)
    ensures
        r@.len() == n,
{
    (0..n).map(|_| rand::random::<u8>()).collect()
}

/// Relies on data_encoding::BASE32_NOPAD.encode: the text is a function
/// of the bytes, eight characters for every five bytes rounded up, all
/// over the A-Z/2-7 alphabet, and decoding it gives the bytes back
/// (the crate's round trip).
#[verifier::external_body]
fn base32_encode(b: &Vec<u8>) -> (r: String)
    ensures
        r@ == base32_nopad_of(b@),
        r@.len() == (b@.len() * 8 + 4) / 5,
        base32_parse(r@) == Some(b@),
        forall|i: int| 0 <= i < r@.len() ==> is_base32_char(#[trigger] r@[i]),
{
    data_encoding::BASE32_NOPAD.encode(b)
}

/// Relies on data_encoding::BASE32_NOPAD.decode: the outcome is a
/// function of the text alone; ill-formed text is rejected.
#[verifier::external_body]
fn base32_decode(s: &str) -> (r: Option<Vec<u8>>)
    ensures
        match r {
            Some(b) => base32_parse(s@) == Some(b@),
            None => base32_parse(s@) is None,
        },
{
    data_encoding::BASE32_NOPAD.decode(s.as_bytes()).ok()
}

/// Relies on totp_rs::Builder and Totp::generate (SHA1, 6 digits,
/// 30-second steps): the zero-padded 6-digit code is a function of the
/// secret and the step alone, and any secret of at least 16 bytes is
/// accepted by the builder.
#[verifier::external_body]
fn totp_generate(secret: &Vec<u8>, step: u64) -> (r: Option<String>)
    requires
        step * 30 <= u64::MAX,
    ensures
        r matches Some(c) ==> c@ == totp_code(secret@, step) && c@.len() == 6,
        secret@.len() >= 16 ==> r is Some,
{
    let totp = totp_rs::Builder::new().with_secret(secret.clone()).build().ok()?;
    Some(format!("{}", totp.generate(step * 30)))
}

/// Relies on urlencoding::encode: the percent-encoded text is a
/// function of the input alone.
#[verifier::external_body]
fn url_encode(s: &str) -> (r: String)
    ensures
        r@ == urlenc_of(s@),
{
    urlencoding::encode(s).into_owned()
}

/// Relies on qrcode_generator's qr::Encoder::encode_text and
/// Renderer::to_png_vec (low error correction, 1024 pixels, automatic
/// mask selection, which is deterministic): rendering succeeds exactly
/// when the text fits some QR version, and the PNG is then a function
/// of the text alone.
#[verifier::external_body]
fn qr_png(data: &str) -> (r: Option<Vec<u8>>)
    ensures
        r is Some <==> qr_encodable(data@),
        r matches Some(v) ==> v@ == qr_png_of(data@),
{
    let encoder = qrcode_generator::qr::Encoder::new(qrcode_generator::qr::ErrorCorrection::Low);
    let symbol = encoder.encode_text(data).ok()?;
    qrcode_generator::Renderer::new(&symbol, 1024).to_png_vec().ok()
}

/// Relies on base64's general_purpose::STANDARD.encode: the text is a
/// function of the bytes alone.
#[verifier::external_body]
fn base64_encode(b: &Vec<u8>) -> (r: String)
    ensures
        r@ == base64_of(b@),
{
    base64::Engine::encode(&base64::engine::general_purpose::STANDARD, b)
}

/// The shape of a freshly drawn shared secret: 26 characters of the
/// base32 alphabet that decode back to 16 bytes, so it is URL-safe and
/// the code generator accepts it.
pub open spec fn spec_generated_secret(s: Seq<char>) -> bool {
    &&& s.len() == 26
    &&& forall|i: int| 0 <= i < s.len() ==> is_base32_char(#[trigger] s[i])
    &&& exists|b: Seq<u8>|
        b.len() == TOTP_SECRET_BYTES && s == base32_nopad_of(b) && #[trigger] base32_parse(s)
            == Some(b)
}

/// Draws a fresh 16-byte secret and hands it out base32-encoded,
/// without padding.
pub fn generate_secret() -> (r: String)
    ensures
        spec_generated_secret(r@),
{
    let bytes = random_bytes(TOTP_SECRET_BYTES);
    let encoded = base32_encode(&bytes);
    proof {
        assert(bytes@.len() == TOTP_SECRET_BYTES && encoded@ == base32_nopad_of(bytes@)
            && base32_parse(encoded@) == Some(bytes@));
    }
    encoded
}

/// The provisioning URI a setup QR encodes, in the form authenticator
/// apps expect.
pub open spec fn spec_totp_url(secret: Seq<char>, username: Seq<char>, issuer: Seq<char>) -> Seq<
    char,
> {
    "otpauth://totp/"@ + urlenc_of(issuer) + ":"@ + urlenc_of(username) + "?secret="@ + secret
        + "&issuer="@ + urlenc_of(issuer) + "&algorithm=SHA1&digits=6&period=30"@
}

/// Builds the otpauth URI for a secret, URL-encoding the issuer and
/// the account name.
pub fn generate_totp_url(secret: &str, username: &str, issuer: &str) -> (r: String)
    ensures
        r@ == spec_totp_url(secret@, username@, issuer@),
{
    let encoded_issuer = url_encode(issuer);
    let encoded_username = url_encode(username);
    let mut r = "otpauth://totp/".to_owned();
    r.append(encoded_issuer.as_str());
    r.append(":");
    r.append(encoded_username.as_str());
    r.append("?secret=");
    r.append(secret);
    r.append("&issuer=");
    r.append(encoded_issuer.as_str());
    r.append("&algorithm=SHA1&digits=6&period=30");
    r
}

/// Renders a URI as a QR code and returns it as a PNG data URL; it
/// succeeds exactly when the URI fits a QR symbol.
pub fn generate_qr_code(url: &str) -> (r: Result<String, UserError>)
    ensures
        r is Ok <==> qr_encodable(url@),
        r matches Ok(s) ==> s@ == "data:image/png;base64,"@ + base64_of(qr_png_of(url@)),
        r matches Err(e) ==> e == UserError::QRCodeGenerationFailure,
{
    match qr_png(url) {
        Some(png) => {
            let mut s = "data:image/png;base64,".to_owned();
            let encoded = base64_encode(&png);
            s.append(encoded.as_str());
            Ok(s)
        },
        None => Err(UserError::QRCodeGenerationFailure),
    }
}

/// Whether `code` is the secret's code for the step of `now` or one of
/// its two neighbouring steps.
pub open spec fn totp_window_match(secret: Seq<u8>, code: Seq<char>, now: u64) -> bool {
    let step = now / (TOTP_PERIOD as u64);
    ||| code == totp_code(secret, step)
    ||| step > 0 && code == totp_code(secret, (step - 1) as u64)
    ||| code == totp_code(secret, (step + 1) as u64)
}

/// What verification of `code` against the base32 `secret` at time
/// `now` returns: the secret must decode to at least 16 bytes, and the
/// code must match within the one-step skew window.
pub open spec fn spec_verify_totp(secret: Seq<char>, code: Seq<char>, now: u64) -> bool {
    match base32_parse(secret) {
        Some(b) => b.len() >= 16 && totp_window_match(b, code, now),
        None => false,
    }
}

/// The code for the current step of `now`, or nothing where the secret
/// does not decode to at least 16 bytes.
pub fn totp_now(secret: &str, now: u64) -> (r: Option<String>)
    requires
        now + TOTP_PERIOD <= u64::MAX,
    ensures
        match r {
            Some(c) => base32_parse(secret@) matches Some(b) && b.len() >= 16 && c@ == totp_code(
                b,
                now / 30,
            ),
            None => !(base32_parse(secret@) matches Some(b) && b.len() >= 16),
        },
{
    let bytes = match base32_decode(secret) {
        Some(b) => b,
        None => {
            return None;
        },
    };
    if bytes.len() < 16 {
        return None;
    }
    let step = now / TOTP_PERIOD;
    proof {
        assert(step * 30 <= now) by (nonlinear_arith)
            requires step == now / 30, now <= u64::MAX;
    }
    totp_generate(&bytes, step)
}

/// Verifies a 6-digit code against a base32 secret at time `now`,
/// accepting the current step and one step on either side.
pub fn verify_totp(secret: &str, code: &str, now: u64) -> (r: bool)
    requires
        now + TOTP_PERIOD <= u64::MAX,
    ensures
        r == spec_verify_totp(secret@, code@, now),
{
    let bytes = match base32_decode(secret) {
        Some(b) => b,
        None => {
            return false;
        },
    };
    if bytes.len() < 16 {
        return false;
    }
    let step = now / TOTP_PERIOD;
    proof {
        assert(step * 30 <= now && (step + 1) * 30 <= now + 30) by (nonlinear_arith)
            requires step == now / 30, now <= u64::MAX;
    }
    let code_owned = code.to_owned();
    match totp_generate(&bytes, step) {
        Some(c) => {
            if c == code_owned {
                return true;
            }
        },
        None => {
            return false;
        },
    }
    if step > 0 {
        match totp_generate(&bytes, step - 1) {
            Some(c) => {
                if c == code_owned {
                    return true;
                }
            },
            None => {
                return false;
            },
        }
    }
    match totp_generate(&bytes, step + 1) {
        Some(c) => {
            if c == code_owned {
                return true;
            }
        },
        None => {
            return false;
        },
    }
    false
}

/// Law: a code computed for a step-aligned time `t` verifies at `t`,
/// thirty seconds earlier and thirty seconds later; ninety seconds
/// earlier it is rejected, unless it happens to collide with the code
/// of one of the steps checked there.
pub proof fn lemma_totp_skew_window(secret: Seq<char>, b: Seq<u8>, t: u64)
    requires
        base32_parse(secret) == Some(b),
        b.len() >= 16,
        90 <= t,
        t + 30 <= u64::MAX,
        t % 30 == 0,
    ensures
        spec_verify_totp(secret, totp_code(b, t / 30), t),
        spec_verify_totp(secret, totp_code(b, t / 30), (t - 30) as u64),
        spec_verify_totp(secret, totp_code(b, t / 30), (t + 30) as u64),
        (forall|s2: u64| t / 30 - 4 <= s2 < t / 30 ==> #[trigger] totp_code(b, s2) != totp_code(
            b,
            t / 30,
        )) ==> !spec_verify_totp(secret, totp_code(b, t / 30), (t - 90) as u64),
{
    let s = t / 30;
    assert(30 * s == t && (t - 30) / 30 == s - 1 && (t + 30) / 30 == s + 1 && (t - 90) / 30 == s
        - 3 && s >= 3) by (nonlinear_arith)
        requires t % 30 == 0, 90 <= t, t + 30 <= u64::MAX, s == t / 30;
    assert(totp_window_match(b, totp_code(b, s), t));
    assert(totp_window_match(b, totp_code(b, s), (t - 30) as u64));
    assert(totp_window_match(b, totp_code(b, s), (t + 30) as u64));
    if forall|s2: u64| t / 30 - 4 <= s2 < t / 30 ==> #[trigger] totp_code(b, s2) != totp_code(
        b,
        t / 30,
    ) {
        assert(totp_code(b, (s - 3) as u64) != totp_code(b, s));
        assert(totp_code(b, (s - 2) as u64) != totp_code(b, s));
        if s > 3 {
            assert(totp_code(b, (s - 4) as u64) != totp_code(b, s));
        }
        assert(!totp_window_match(b, totp_code(b, s), (t - 90) as u64));
    }
}

} // verus!
