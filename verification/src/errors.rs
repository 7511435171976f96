use vstd::prelude::*;

verus! {

/// The failures an operation of the protocol can report.
///
/// Every failure is reported synchronously to the caller; a validation
/// failure (`InvalidHash`, `PovCheckFailed`) leaves the session record
/// untouched, while a structural failure (`UserNotExist`, `AuthNotStarted`,
/// `UserNotAuth`) tells the client to restart from the challenge step.
#[derive(Debug, Clone, Copy, PartialEq, Eq, Structural)]
pub enum ApiError {
    /// Authentication has not been initiated for this login.
    AuthNotStarted,
    /// A session exists but is not in the authenticated state.
    UserNotAuth,
    /// The supplied hash does not match the expected ratchet-derived value.
    InvalidHash,
    /// The login is absent from the credential registry.
    UserNotExist,
    /// A response could not be serialized by the transport layer.
    JsonConvertionFailed,
    /// The shared state could not be reached by the transport layer.
    InternalStateUnavailable,
    /// The proof-of-work digest does not meet the required zero prefix.
    PovCheckFailed,
}

} // verus!
