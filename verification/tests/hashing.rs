use wisdom::hashing::{compute_challenge_hash, compute_logout_hash};

fn md5_hex(s: &str) -> String {
    format!("{:x}", md5::compute(s.as_bytes()))
}

#[test]
fn challenge_hash_matches_reference_digest() {
    assert_eq!(compute_challenge_hash(1000, "s3cret"), md5_hex("1000s3cret"));
    assert_eq!(compute_challenge_hash(42, "pass1"), md5_hex("42pass1"));
    assert_eq!(compute_challenge_hash(0, ""), md5_hex("0"));
}

#[test]
fn logout_hash_matches_reference_digest() {
    let stored = md5_hex("seed");
    assert_eq!(
        compute_logout_hash(&stored, "pass1"),
        md5_hex(&format!("{}pass1", stored))
    );
    assert_eq!(compute_logout_hash("", ""), md5_hex(""));
}
