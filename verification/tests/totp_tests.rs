use authcore::totp::{
    generate_qr_code, generate_secret, generate_totp_url, totp_now, verify_totp,
};

fn fixed_secret() -> String {
    data_encoding::BASE32_NOPAD.encode(b"0123456789abcdef")
}

const T: u64 = 1_700_000_010;

#[test]
fn code_verifies_in_its_own_step() {
    let secret = fixed_secret();
    let code = totp_now(secret.as_str(), T).unwrap();
    assert!(verify_totp(secret.as_str(), code.as_str(), T));
}

#[test]
fn code_verifies_one_step_early_and_late() {
    let secret = fixed_secret();
    let code = totp_now(secret.as_str(), T).unwrap();
    assert!(verify_totp(secret.as_str(), code.as_str(), T - 30));
    assert!(verify_totp(secret.as_str(), code.as_str(), T + 30));
}

#[test]
fn code_is_rejected_ninety_seconds_early() {
    let secret = fixed_secret();
    let code = totp_now(secret.as_str(), T).unwrap();
    assert!(!verify_totp(secret.as_str(), code.as_str(), T - 90));
}

#[test]
fn code_with_one_digit_changed_is_rejected() {
    let secret = fixed_secret();
    let code = totp_now(secret.as_str(), T).unwrap();
    assert_eq!(code.len(), 6);
    let first = code.chars().next().unwrap();
    let flipped = if first == '0' { '1' } else { '0' };
    let mut tampered = String::new();
    tampered.push(flipped);
    tampered.push_str(&code[1..]);
    assert!(!verify_totp(secret.as_str(), tampered.as_str(), T));
}

#[test]
fn wrong_secret_rejects_code() {
    let secret = fixed_secret();
    let other = data_encoding::BASE32_NOPAD.encode(b"fedcba9876543210");
    let code = totp_now(secret.as_str(), T).unwrap();
    assert!(!verify_totp(other.as_str(), code.as_str(), T));
}

#[test]
fn short_secret_is_refused() {
    let short = data_encoding::BASE32_NOPAD.encode(b"tooshort");
    assert!(totp_now(short.as_str(), T).is_none());
    assert!(!verify_totp(short.as_str(), "123456", T));
}

#[test]
fn generated_secret_is_26_base32_characters() {
    let s = generate_secret();
    assert_eq!(s.len(), 26);
    assert!(s.chars().all(|c| c.is_ascii_uppercase() || ('2'..='7').contains(&c)));
    let decoded = data_encoding::BASE32_NOPAD.decode(s.as_bytes()).unwrap();
    assert_eq!(decoded.len(), 16);
}

#[test]
fn generated_secret_produces_verifiable_codes() {
    let s = generate_secret();
    let code = totp_now(s.as_str(), T).unwrap();
    assert!(verify_totp(s.as_str(), code.as_str(), T));
}

#[test]
fn provisioning_uri_has_expected_form() {
    let url = generate_totp_url("SECRETB32", "alice@example.com", "Todo App");
    assert_eq!(
        url,
        "otpauth://totp/Todo%20App:alice%40example.com?secret=SECRETB32&issuer=Todo%20App&algorithm=SHA1&digits=6&period=30"
    );
}

#[test]
fn qr_code_is_a_png_data_url() {
    let url = generate_totp_url(fixed_secret().as_str(), "alice@example.com", "Todo App");
    let data_url = generate_qr_code(url.as_str()).unwrap();
    let prefix = "data:image/png;base64,";
    assert!(data_url.starts_with(prefix));
    let png = base64::Engine::decode(
        &base64::engine::general_purpose::STANDARD,
        &data_url[prefix.len()..],
    )
    .unwrap();
    assert_eq!(&png[1..4], b"PNG");
}

#[test]
fn oversized_qr_payload_fails() {
    let huge = "a".repeat(8000);
    assert!(generate_qr_code(huge.as_str()).is_err());
}
