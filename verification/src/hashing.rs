use vstd::prelude::*;

use crate::strings::{dec_str_of, u64_to_string};

verus! {

/// The lowercase hexadecimal MD5 digest of a string's text. The digest is
/// a pure function of the characters alone, so it is given a name here
/// rather than a definition; `md5_hex` below computes it.
pub uninterp spec fn md5_hex_of(s: Seq<char>) -> Seq<char>;

/// Relies on `md5::compute`, whose 16-byte digest is rendered by its
/// `LowerHex` impl as two lowercase hex characters per byte: the result
/// is the 32-character hex digest of the input text.
#[verifier::external_body]
pub(crate) fn md5_hex(s: &str) -> (r: String)
    ensures
        r@ == md5_hex_of(s@),
        r@.len() == 32,
{
    format!("{:x}", md5::compute(s.as_bytes()))
}

/// The initial ratchet hash a challenge issues: the digest of the server
/// time rendered in decimal, followed by the login's secret. The client
/// recomputes it from the echoed time and its own copy of the secret.
pub open spec fn challenge_hash(time: u64, secret: Seq<char>) -> Seq<char> {
    md5_hex_of(dec_str_of(time as nat) + secret)
}

/// Derives the challenge hash from a server time and a secret: the one
/// derivation both sides of the protocol perform.
pub fn compute_challenge_hash(time: u64, secret: &str) -> (r: String)
    ensures
        r@ == challenge_hash(time, secret@),
{
    let data = u64_to_string(time).concat(secret);
    md5_hex(data.as_str())
}

/// Derives the logout proof from the current ratchet hash and a secret:
/// the digest of the stored hash followed by the secret.
pub fn compute_logout_hash(stored: &str, secret: &str) -> (r: String)
    ensures
        r@ == md5_hex_of(stored@ + secret@),
{
    let data = stored.to_owned().concat(secret);
    md5_hex(data.as_str())
}

} // verus!
