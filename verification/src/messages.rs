use vstd::prelude::*;

verus! {

/// A request for the current server time, which opens a fresh challenge
/// for `login`.
#[derive(Debug, PartialEq, Eq)]
pub struct ReqTimeMessage {
    pub login: String,
}

/// The server's answer to [`ReqTimeMessage`]: the current Unix time in
/// seconds. The client derives the challenge hash from this time and its
/// own secret; the hash itself is never transmitted at this step.
#[derive(Debug, PartialEq, Eq)]
pub struct RespTimeMessage {
    pub time: u64,
}

/// A login request: the client echoes the hash it derived from the
/// server time and its secret.
#[derive(Debug, PartialEq, Eq)]
pub struct LoginReqMessage {
    pub login: String,
    pub hash: String,
}

/// The server's answer to a successful login: the advanced session hash
/// and the proof-of-work difficulty for the next request.
#[derive(Debug, PartialEq, Eq)]
pub struct LoginSuccMessage {
    pub hash: String,
    pub difficulty: u64,
}

/// A request for a quote, carrying the proof-of-work nonce `pow`.
#[derive(Debug, PartialEq, Eq)]
pub struct QuoteReqMessage {
    pub login: String,
    pub pow: u64,
}

/// The server's answer to a successful quote request: one quote, the
/// advanced session hash, and the difficulty for the next request.
#[derive(Debug, PartialEq, Eq)]
pub struct QuoteRespMessage {
    pub quote: String,
    pub hash: String,
    pub difficulty: u64,
}

/// A logout request: the client proves knowledge of the current session
/// hash and its secret in one final hash.
#[derive(Debug, PartialEq, Eq)]
pub struct LogoutReqMessage {
    pub login: String,
    pub hash: String,
}

/// The server's acknowledgment of a logout.
#[derive(Debug, PartialEq, Eq)]
pub struct LogoutSuccMessage {}

} // verus!
