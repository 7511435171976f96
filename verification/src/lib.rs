//! An admission-controlled session protocol: a client completes a
//! time-seeded challenge, proves knowledge of a shared secret, and pays a
//! proof-of-work cost before each quote fetch. Every successful exchange
//! advances a per-login ratchet hash, so no accepted value is ever
//! accepted twice. The protocol state machine, the hash-chain and
//! proof-of-work checks, and the session store behind them are verified;
//! the digest itself, the wall clock and the random quote pick are
//! trusted calls into outside code.

pub mod errors;
pub mod handlers;
pub mod hashing;
pub mod laws;
pub mod messages;
pub mod pow;
pub mod state;
pub mod strings;
pub mod utils;
