//! One-time backup codes: ten-character lowercase-alphanumeric recovery
//! codes, shown to the user once and stored only as hex-encoded SHA-256
//! digests. These codes are high-entropy random strings, so a fast
//! one-way digest is used, not the adaptive password hash. Regeneration
//! replaces the stored digest set wholesale; consumption removes one
//! digest.

use vstd::prelude::*;
use vstd::string::StrSliceExecFns;
use vstd::string::StringExecFns;

verus! {

/// Characters per backup code.
pub const BACKUP_CODE_LENGTH: usize = 10;

/// How many codes one generation hands out.
pub const DEFAULT_BACKUP_CODES_COUNT: usize = 10;

/// The SHA-256 digest of a text's UTF-8 bytes.
pub uninterp spec fn sha256_of(s: Seq<char>) -> Seq<u8>;

/// The lowercase hex digit for a value below sixteen.
pub open spec fn hex_digit(n: u8) -> char {
    if n < 10 {
        (n + 48) as char
    } else {
        (n + 87) as char
    }
}

/// Lowercase hex encoding: two digits for each byte, high nibble first.
pub open spec fn hex_of(b: Seq<u8>) -> Seq<char> {
    Seq::new(
        b.len() * 2,
        |i: int|
            if i % 2 == 0 {
                hex_digit(b[i / 2] >> 4u8)
            } else {
                hex_digit(b[i / 2] & 0xfu8)
            },
    )
}

/// Relies on sha2::Sha256 through the Digest trait: the 32-byte digest
/// is a function of the input alone.
#[verifier::external_body]
fn sha256_digest(s: &str) -> (r: Vec<u8>)
    ensures
        r@ == sha256_of(s@),
        r@.len() == 32,
{
    <sha2::Sha256 as sha2::Digest>::digest(s.as_bytes()).to_vec()
}

/// Relies on hex::encode: two lowercase digits per byte, high nibble
/// first, exactly `hex_of`.
#[verifier::external_body]
fn hex_encode(b: &Vec<u8>) -> (r: String)
    ensures
        r@ == hex_of(b@),
{
    hex::encode(b)
}

/// Relies on rand::random_range: a uniformly drawn index below the
/// bound; nothing but the range can be promised of it.
#[verifier::external_body]
fn random_below(bound: u32) -> (r: u32)
    requires
        bound > 0,
    ensures
        r < bound,
{
    rand::random_range(0..bound)
}

/// Relies on String::push, which vstd leaves unspecified: appends one
/// character.
#[verifier::external_body]
fn push_char(s: &mut String, c: char)
    ensures
        final(s)@ == old(s)@.push(c),
{
    s.push(c);
}

/// Digit or lowercase letter, the backup-code alphabet.
pub open spec fn is_backup_char(c: char) -> bool {
    (48 <= c as u32 <= 57) || (97 <= c as u32 <= 122)
}

/// A well-formed backup code: ten characters over the alphabet.
pub open spec fn is_backup_code(s: Seq<char>) -> bool {
    s.len() == BACKUP_CODE_LENGTH && forall|i: int| 0 <= i < s.len() ==> is_backup_char(#[trigger] s[i])
}

/// The symbol for one uniformly drawn index: digits first, then the
/// lowercase letters.
pub open spec fn spec_backup_char(idx: u32) -> char {
    if idx < 10 {
        ((idx + 48) as u8) as char
    } else {
        ((idx + 87) as u8) as char
    }
}

fn backup_code_char(idx: u32) -> (c: char)
    requires
        idx < 36,
    ensures
        c == spec_backup_char(idx),
        is_backup_char(c),
{
    if idx < 10 {
        ((idx + 48) as u8) as char
    } else {
        ((idx + 87) as u8) as char
    }
}

/// Hex-encoded SHA-256 digest of a code, the form in which codes are
/// persisted and compared.
pub fn hash_backup_code(code: &str) -> (r: String)
    ensures
        r@ == hex_of(sha256_of(code@)),
{
    let digest = sha256_digest(code);
    hex_encode(&digest)
}

/// Draws one fresh backup code.
fn generate_one_code() -> (r: String)
    ensures
        is_backup_code(r@),
{
    let mut code = String::new();
    for k in 0..BACKUP_CODE_LENGTH
        invariant
            code@.len() == k,
            forall|i: int| 0 <= i < code@.len() ==> is_backup_char(#[trigger] code@[i]),
    {
        let c = backup_code_char(random_below(36));
        push_char(&mut code, c);
    }
    code
}

/// Generates `count` (ten, unless given) one-time codes: the plaintext
/// list to show the user once, and the digest list to persist in its
/// place. Regeneration is wholesale: the caller replaces any stored
/// digests with the new list, which invalidates every older code.
pub fn generate_backup_codes(count: Option<usize>) -> (r: (Vec<String>, Vec<String>))
    ensures
        r.0@.len() == (match count {
            Some(n) => n,
            None => DEFAULT_BACKUP_CODES_COUNT,
        }),
        r.1@.len() == r.0@.len(),
        forall|i: int| 0 <= i < r.0@.len() ==> is_backup_code(#[trigger] r.0@[i]@),
        forall|i: int| 0 <= i < r.0@.len() ==> #[trigger] r.1@[i]@ == hex_of(sha256_of(r.0@[i]@)),
{
    let n = match count {
        Some(n) => n,
        None => DEFAULT_BACKUP_CODES_COUNT,
    };
    let mut plain: Vec<String> = Vec::new();
    let mut hashed: Vec<String> = Vec::new();
    for j in 0..n
        invariant
            plain@.len() == j,
            hashed@.len() == j,
            forall|i: int| 0 <= i < plain@.len() ==> is_backup_code(#[trigger] plain@[i]@),
            forall|i: int| 0 <= i < plain@.len() ==> #[trigger] hashed@[i]@ == hex_of(
                sha256_of(plain@[i]@),
            ),
    {
        let code = generate_one_code();
        let digest = hash_backup_code(code.as_str());
        plain.push(code);
        hashed.push(digest);
    }
    (plain, hashed)
}

/// The index of the first stored digest equal to `digest`, if any.
pub open spec fn spec_verify_backup(digest: Seq<char>, hashed: Seq<Seq<char>>) -> Option<int>
    decreases hashed.len(),
{
    if hashed.len() == 0 {
        None
    } else if hashed[0] == digest {
        Some(0)
    } else {
        match spec_verify_backup(digest, hashed.drop_first()) {
            Some(i) => Some(i + 1),
            None => None,
        }
    }
}

/// What the first-match index means, spelled out.
pub proof fn lemma_spec_verify_backup_props(digest: Seq<char>, hashed: Seq<Seq<char>>)
    ensures
        match spec_verify_backup(digest, hashed) {
            Some(i) => 0 <= i < hashed.len() && hashed[i] == digest && forall|j: int|
                0 <= j < i ==> hashed[j] != digest,
            None => forall|j: int| 0 <= j < hashed.len() ==> hashed[j] != digest,
        },
    decreases hashed.len(),
{
    if hashed.len() == 0 {
    } else if hashed[0] == digest {
    } else {
        let rest = hashed.drop_first();
        lemma_spec_verify_backup_props(digest, rest);
        match spec_verify_backup(digest, rest) {
            Some(i) => {
                assert(rest[i] == hashed[i + 1]);
                assert forall|j: int| 0 <= j < i + 1 implies hashed[j] != digest by {
                    if j > 0 {
                        assert(rest[j - 1] == hashed[j]);
                    }
                }
            },
            None => {
                assert forall|j: int| 0 <= j < hashed.len() implies hashed[j] != digest by {
                    if j > 0 {
                        assert(rest[j - 1] == hashed[j]);
                    }
                }
            },
        }
    }
}

proof fn lemma_first_match(digest: Seq<char>, hashed: Seq<Seq<char>>, i: int)
    requires
        0 <= i < hashed.len(),
        hashed[i] == digest,
        forall|j: int| 0 <= j < i ==> hashed[j] != digest,
    ensures
        spec_verify_backup(digest, hashed) == Some(i),
    decreases hashed.len(),
{
    if i == 0 {
    } else {
        assert(hashed[0] != digest);
        assert(hashed.drop_first()[i - 1] == hashed[i]);
        assert forall|j: int| 0 <= j < i - 1 implies hashed.drop_first()[j] != digest by {
            assert(hashed.drop_first()[j] == hashed[j + 1]);
        }
        lemma_first_match(digest, hashed.drop_first(), i - 1);
    }
}

proof fn lemma_no_match(digest: Seq<char>, hashed: Seq<Seq<char>>)
    requires
        forall|j: int| 0 <= j < hashed.len() ==> hashed[j] != digest,
    ensures
        spec_verify_backup(digest, hashed) is None,
    decreases hashed.len(),
{
    if hashed.len() == 0 {
    } else {
        assert forall|j: int| 0 <= j < hashed.drop_first().len() implies hashed.drop_first()[j]
            != digest by {
            assert(hashed.drop_first()[j] == hashed[j + 1]);
        }
        lemma_no_match(digest, hashed.drop_first());
    }
}

/// Hashes the (already separator-stripped) input and looks it up in the
/// stored digest list, returning the index of the first match.
pub fn verify_backup_code(code: &str, hashed_codes: &Vec<String>) -> (r: Option<usize>)
    ensures
        match r {
            Some(i) => spec_verify_backup(hex_of(sha256_of(code@)), hashed_codes.deep_view())
                == Some(i as int),
            None => spec_verify_backup(hex_of(sha256_of(code@)), hashed_codes.deep_view())
                is None,
        },
{
    let digest = hash_backup_code(code);
    let n = hashed_codes.len();
    for i in 0..n
        invariant
            n == hashed_codes@.len(),
            digest@ == hex_of(sha256_of(code@)),
            forall|j: int| 0 <= j < i ==> hashed_codes@[j]@ != digest@,
    {
        if hashed_codes[i] == digest {
            proof {
                assert(hashed_codes.deep_view()[i as int] == hashed_codes@[i as int]@);
                assert forall|j: int| 0 <= j < i implies hashed_codes.deep_view()[j] != digest@ by {
                    assert(hashed_codes.deep_view()[j] == hashed_codes@[j]@);
                }
                lemma_first_match(digest@, hashed_codes.deep_view(), i as int);
            }
            return Some(i);
        }
    }
    proof {
        assert forall|j: int| 0 <= j < hashed_codes.deep_view().len()
            implies hashed_codes.deep_view()[j] != digest@ by {
            assert(hashed_codes.deep_view()[j] == hashed_codes@[j]@);
        }
        lemma_no_match(digest@, hashed_codes.deep_view());
    }
    None
}

/// Display form: the code split at its midpoint by a dash. Purely
/// cosmetic; stripping the dash recovers the stored form. A short
/// input is handed back unchanged.
pub fn format_backup_code(code: &str) -> (r: String)
    ensures
        code@.len() >= BACKUP_CODE_LENGTH ==> r@ == code@.subrange(0, 5) + "-"@ + code@.subrange(
            5,
            code@.len() as int,
        ),
        code@.len() < BACKUP_CODE_LENGTH ==> r@ == code@,
{
    let n = code.unicode_len();
    if n >= BACKUP_CODE_LENGTH {
        let first = code.substring_char(0, 5);
        let second = code.substring_char(5, n);
        let mut r = first.to_owned();
        r.append("-");
        r.append(second);
        r
    } else {
        code.to_owned()
    }
}

/// Drops every dash from a user-entered code, undoing the display
/// formatting before verification.
pub fn strip_separator(code: &str) -> (r: String)
    ensures
        r@ == code@.filter(|c: char| c != '-'),
{
    let ghost keep = |c: char| c != '-';
    let n = code.unicode_len();
    let mut r = String::new();
    proof {
        assert(code@.subrange(0, 0) =~= Seq::<char>::empty());
        reveal_with_fuel(Seq::filter, 2);
        assert(r@ =~= code@.subrange(0, 0).filter(keep));
    }
    for i in 0..n
        invariant
            n == code@.len(),
            r@ =~= code@.subrange(0, i as int).filter(keep),
            keep == (|c: char| c != '-'),
    {
        let c = code.get_char(i);
        proof {
            reveal_with_fuel(Seq::filter, 2);
            assert(code@.subrange(0, i + 1).drop_last() =~= code@.subrange(0, i as int));
            assert(code@.subrange(0, i + 1).last() == code@[i as int]);
        }
        if c != '-' {
            push_char(&mut r, c);
        }
    }
    proof {
        assert(code@.subrange(0, n as int) =~= code@);
    }
    r
}

/// Law: after regeneration replaces the stored digests, a code whose
/// digest is not among the new digests no longer verifies.
pub proof fn lemma_backup_code_invalidated(code: Seq<char>, hashed: Seq<Seq<char>>)
    requires
        forall|j: int| 0 <= j < hashed.len() ==> hashed[j] != hex_of(sha256_of(code)),
    ensures
        spec_verify_backup(hex_of(sha256_of(code)), hashed) is None,
{
    lemma_no_match(hex_of(sha256_of(code)), hashed);
}

/// Law: a backup code is one-shot. Where a code matches a digest that
/// occurs only once in the stored set, removing that digest (what a
/// successful backup login does before issuing a session) makes a
/// second use of the same code fail.
pub proof fn lemma_backup_code_single_use(code: Seq<char>, hashed: Seq<Seq<char>>, i: int)
    requires
        spec_verify_backup(hex_of(sha256_of(code)), hashed) == Some(i),
        forall|j: int| 0 <= j < hashed.len() && j != i ==> hashed[j] != hex_of(sha256_of(code)),
    ensures
        0 <= i < hashed.len(),
        hashed[i] == hex_of(sha256_of(code)),
        spec_verify_backup(hex_of(sha256_of(code)), hashed.remove(i)) is None,
{
    let digest = hex_of(sha256_of(code));
    lemma_spec_verify_backup_props(digest, hashed);
    assert forall|j: int| 0 <= j < hashed.remove(i).len() implies hashed.remove(i)[j] != digest by {
        if j < i {
            assert(hashed.remove(i)[j] == hashed[j]);
        } else {
            assert(hashed.remove(i)[j] == hashed[j + 1]);
        }
    }
    lemma_no_match(digest, hashed.remove(i));
}

} // verus!
