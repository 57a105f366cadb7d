use authcore::backup::{
    format_backup_code, generate_backup_codes, hash_backup_code, strip_separator,
    verify_backup_code,
};
use authcore::password::{hash_password, verify_password};

#[test]
fn sha256_digest_matches_known_vector() {
    assert_eq!(
        hash_backup_code("abc"),
        "ba7816bf8f01cfea414140de5dae2223b00361a396177a9cb410ff61f20015ad"
    );
}

#[test]
fn generates_ten_codes_by_default() {
    let (plain, hashed) = generate_backup_codes(None);
    assert_eq!(plain.len(), 10);
    assert_eq!(hashed.len(), 10);
    for (p, h) in plain.iter().zip(hashed.iter()) {
        assert_eq!(p.len(), 10);
        assert!(p.chars().all(|c| c.is_ascii_digit() || c.is_ascii_lowercase()));
        assert_eq!(&hash_backup_code(p), h);
    }
}

#[test]
fn generates_requested_count() {
    let (plain, hashed) = generate_backup_codes(Some(3));
    assert_eq!(plain.len(), 3);
    assert_eq!(hashed.len(), 3);
}

#[test]
fn verify_finds_the_matching_index() {
    let (plain, hashed) = generate_backup_codes(None);
    for (i, p) in plain.iter().enumerate() {
        let found = verify_backup_code(p.as_str(), &hashed);
        assert_eq!(found, Some(i));
    }
}

#[test]
fn verify_rejects_unknown_code() {
    let (_, hashed) = generate_backup_codes(None);
    assert_eq!(verify_backup_code("zzzzzzzzzz", &hashed), None);
}

#[test]
fn used_code_is_gone_after_removal() {
    let (plain, mut hashed) = generate_backup_codes(None);
    let code = plain[4].as_str();
    let idx = verify_backup_code(code, &hashed).unwrap();
    assert_eq!(idx, 4);
    hashed.remove(idx);
    assert_eq!(verify_backup_code(code, &hashed), None);
}

#[test]
fn old_codes_fail_against_regenerated_set() {
    let (old_plain, _) = generate_backup_codes(None);
    let (_, new_hashed) = generate_backup_codes(None);
    for p in &old_plain {
        assert_eq!(verify_backup_code(p.as_str(), &new_hashed), None);
    }
}

#[test]
fn format_splits_at_the_midpoint() {
    assert_eq!(format_backup_code("abcdefghij"), "abcde-fghij");
    assert_eq!(format_backup_code("short"), "short");
}

#[test]
fn strip_undoes_format() {
    assert_eq!(strip_separator("abcde-fghij"), "abcdefghij");
    assert_eq!(strip_separator("ab-cd-ef"), "abcdef");
    assert_eq!(strip_separator("abcdef"), "abcdef");
}

#[test]
fn formatted_code_verifies_after_stripping() {
    let (plain, hashed) = generate_backup_codes(None);
    let shown = format_backup_code(plain[0].as_str());
    let stripped = strip_separator(shown.as_str());
    assert_eq!(verify_backup_code(stripped.as_str(), &hashed), Some(0));
}

#[test]
fn password_hash_verifies_and_rejects() {
    let digest = hash_password("hunter2secret").unwrap();
    assert!(verify_password("hunter2secret", digest.as_str()));
    assert!(!verify_password("wrong-password", digest.as_str()));
}

#[test]
fn malformed_digest_is_a_non_match() {
    assert!(!verify_password("anything", "not-a-bcrypt-digest"));
}
