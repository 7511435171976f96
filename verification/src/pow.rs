use vstd::prelude::*;

use crate::hashing::{md5_hex, md5_hex_of};
use crate::strings::{dec_str_of, u64_to_string};

verus! {

/// `s` begins with at least `d` zero characters.
pub open spec fn has_zero_prefix(s: Seq<char>, d: nat) -> bool {
    &&& d <= s.len()
    &&& forall|i: int| 0 <= i < d ==> s[i] == '0'
}

/// The proof-of-work condition: hashing the current ratchet value followed
/// by the decimal rendering of `work` yields a digest with `difficulty`
/// leading zero hex characters.
pub open spec fn pow_ok(last_hash: Seq<char>, work: u64, difficulty: u64) -> bool {
    has_zero_prefix(md5_hex_of(last_hash + dec_str_of(work as nat)), difficulty as nat)
}

/// Decides whether `s` starts with `d` zero characters.
pub fn check_zero_prefix(s: &str, d: u64) -> (b: bool)
    ensures
        b == has_zero_prefix(s@, d as nat),
{
    let len = s.unicode_len();
    if d > len as u64 {
        return false;
    }
    let dd: usize = d as usize;
    let mut i: usize = 0;
    while i < dd
        invariant
            dd == d,
            d <= s@.len(),
            i <= dd,
            forall|j: int| 0 <= j < i ==> s@[j] == '0',
        decreases dd - i,
    {
        if s.get_char(i) != '0' {
            return false;
        }
        i = i + 1;
    }
    true
}

/// Decides the proof-of-work condition for a nonce against the current
/// ratchet hash.
pub fn check_pow(last_hash: &String, work: u64, difficulty: u64) -> (b: bool)
    ensures
        b == pow_ok(last_hash@, work, difficulty),
{
    let work_str = u64_to_string(work);
    let data = last_hash.clone().concat(work_str.as_str());
    let digest = md5_hex(data.as_str());
    check_zero_prefix(digest.as_str(), difficulty)
}

/// The client-side companion search: the smallest positive nonce whose
/// digest meets the difficulty, or `None` if no nonce does. A difficulty
/// of zero is satisfied before any digest is computed, so the search
/// answers zero at once.
pub fn calc_pow(difficulty: u64, hash: &String) -> (r: Option<u64>)
    ensures
        difficulty == 0 ==> r == Some(0u64),
        difficulty > 0 ==> match r {
            Some(p) => 1 <= p && pow_ok(hash@, p, difficulty) && (forall|w: u64|
                1 <= w < p ==> !pow_ok(hash@, w, difficulty)),
            None => forall|w: u64| 1 <= w ==> !pow_ok(hash@, w, difficulty),
        },
{
    if difficulty == 0 {
        return Some(0);
    }
    let mut pow: u64 = 0;
    while pow < u64::MAX
        invariant
            difficulty > 0,
            forall|w: u64| 1 <= w <= pow ==> !pow_ok(hash@, w, difficulty),
        decreases u64::MAX - pow,
    {
        pow = pow + 1;
        if check_pow(hash, pow, difficulty) {
            return Some(pow);
        }
    }
    None
}

} // verus!
