use wisdom::pow::{calc_pow, check_pow, check_zero_prefix};
use wisdom::strings::u64_to_string;
use wisdom::utils::get_unix_time_in_secs;

fn md5_hex(s: &str) -> String {
    format!("{:x}", md5::compute(s.as_bytes()))
}

#[test]
fn u64_to_string_matches_std() {
    assert_eq!(u64_to_string(0), "0");
    assert_eq!(u64_to_string(7), "7");
    assert_eq!(u64_to_string(10), "10");
    assert_eq!(u64_to_string(1000), "1000");
    assert_eq!(u64_to_string(987654321), "987654321");
    assert_eq!(u64_to_string(u64::MAX), u64::MAX.to_string());
}

#[test]
fn zero_prefix_check() {
    assert!(check_zero_prefix("00ab", 0));
    assert!(check_zero_prefix("00ab", 2));
    assert!(!check_zero_prefix("00ab", 3));
    assert!(!check_zero_prefix("ab", 1));
    assert!(!check_zero_prefix("0", 2));
    assert!(check_zero_prefix("", 0));
}

#[test]
fn check_pow_matches_reference_digest() {
    let hash = "5e543256c480ac577d30f76f9120eb74".to_owned();
    let mut seen_pass = false;
    let mut seen_fail = false;
    for w in 0..200u64 {
        let expected = md5_hex(&format!("{}{}", hash, w)).starts_with("0");
        assert_eq!(check_pow(&hash, w, 1), expected);
        seen_pass |= expected;
        seen_fail |= !expected;
    }
    assert!(seen_fail, "some nonce in range must fail at difficulty 1");
    assert!(seen_pass, "some nonce in range must pass at difficulty 1");
}

#[test]
fn calc_pow_zero_difficulty_answers_at_once() {
    let hash = "anything".to_owned();
    assert_eq!(calc_pow(0, &hash), Some(0));
}

#[test]
fn calc_pow_finds_minimal_nonce() {
    let hash = md5_hex("seed");
    let p = calc_pow(2, &hash).unwrap();
    assert!(p >= 1);
    assert!(md5_hex(&format!("{}{}", hash, p)).starts_with("00"));
    for w in 1..p {
        assert!(!md5_hex(&format!("{}{}", hash, w)).starts_with("00"));
    }
}

#[test]
fn unix_time_is_positive() {
    let t = get_unix_time_in_secs();
    assert!(t > 0);
}
