use vstd::prelude::*;

use crate::errors::ApiError;
use crate::hashing::{
    challenge_hash, compute_challenge_hash, compute_logout_hash, md5_hex, md5_hex_of,
};
use crate::messages::{
    LoginReqMessage, LoginSuccMessage, LogoutReqMessage, LogoutSuccMessage, QuoteReqMessage,
    QuoteRespMessage, ReqTimeMessage, RespTimeMessage,
};
use crate::pow::{check_pow, pow_ok};
use crate::state::{
    get_session, lookup_secret, spec_find_session, spec_find_user, State, UserState,
};
use crate::utils::{get_unix_time_in_secs, pick_index};

verus! {

/// The condition under which `auth` succeeds: a challenge is pending for
/// the login and `h` is exactly the stored ratchet hash.
pub open spec fn auth_accepts(st: State, login: Seq<char>, h: Seq<char>) -> bool {
    spec_find_session(st.authorized@, login) matches Some((stored, us)) && us
        == UserState::InProcess && h == stored
}

/// The error `auth` reports when it does not accept.
pub open spec fn auth_error(st: State, login: Seq<char>) -> ApiError {
    match spec_find_session(st.authorized@, login) {
        None => ApiError::AuthNotStarted,
        Some((stored, us)) => if us != UserState::InProcess {
            ApiError::AuthNotStarted
        } else {
            ApiError::InvalidHash
        },
    }
}

/// The condition under which a quote request passes the session checks:
/// the login holds an authenticated session.
pub open spec fn quote_ready(st: State, login: Seq<char>) -> bool {
    spec_find_session(st.authorized@, login) matches Some((stored, us)) && us == UserState::Auth
}

/// The error `get_quote` reports when it fails.
pub open spec fn quote_error(st: State, login: Seq<char>) -> ApiError {
    match spec_find_session(st.authorized@, login) {
        None => ApiError::AuthNotStarted,
        Some((stored, us)) => if us != UserState::Auth {
            ApiError::UserNotAuth
        } else {
            ApiError::PovCheckFailed
        },
    }
}

/// The condition under which `logout` succeeds: an authenticated session
/// whose login is registered, and `h` is the digest of the stored ratchet
/// hash followed by the secret.
pub open spec fn logout_accepts(st: State, login: Seq<char>, h: Seq<char>) -> bool {
    spec_find_session(st.authorized@, login) matches Some((stored, us)) && us == UserState::Auth
        && (spec_find_user(st.users@, login) matches Some(secret) && h == md5_hex_of(
        stored + secret,
    ))
}

/// The error `logout` reports when it does not accept.
pub open spec fn logout_error(st: State, login: Seq<char>) -> ApiError {
    match spec_find_session(st.authorized@, login) {
        None => ApiError::AuthNotStarted,
        Some((stored, us)) => match spec_find_user(st.users@, login) {
            None => ApiError::UserNotExist,
            Some(secret) => if us != UserState::Auth {
                ApiError::UserNotAuth
            } else {
                ApiError::InvalidHash
            },
        },
    }
}

/// Begins a challenge for `req.login` at the given server time: issues
/// the initial ratchet hash derived from the time and the login's secret,
/// unconditionally overwriting any prior session, and echoes the time.
pub fn get_time_at(state: &mut State, req: &ReqTimeMessage, time: u64) -> (r: Result<
    RespTimeMessage,
    ApiError,
>)
    requires
        old(state).wf(),
    ensures
        final(state).wf(),
        final(state).users@ == old(state).users@,
        final(state).quotes@ == old(state).quotes@,
        final(state).difficulty == old(state).difficulty,
        r is Ok <==> spec_find_user(old(state).users@, req.login@) is Some,
        r matches Err(e) ==> e == ApiError::UserNotExist && *final(state) == *old(state),
        r matches Ok(resp) ==> ({
            &&& resp.time == time
            &&& spec_find_user(old(state).users@, req.login@) matches Some(secret)
                && spec_find_session(final(state).authorized@, req.login@) == Some(
                (challenge_hash(time, secret), UserState::InProcess),
            )
            &&& forall|k: Seq<char>|
                k != req.login@ ==> spec_find_session(final(state).authorized@, k)
                    == spec_find_session(old(state).authorized@, k)
        }),
{
    match lookup_secret(&state.users, &req.login) {
        None => Err(ApiError::UserNotExist),
        Some(secret) => {
            let h0 = compute_challenge_hash(time, secret.as_str());
            state.set_session(&req.login, h0, UserState::InProcess);
            Ok(RespTimeMessage { time })
        },
    }
}

/// Begins a challenge for `req.login` at the current wall-clock time.
/// The stored hash is a pure function of the echoed time and the secret,
/// so the client recomputes it from the response alone.
pub fn get_time(state: &mut State, req: &ReqTimeMessage) -> (r: Result<RespTimeMessage, ApiError>)
    requires
        old(state).wf(),
    ensures
        final(state).wf(),
        final(state).users@ == old(state).users@,
        final(state).quotes@ == old(state).quotes@,
        final(state).difficulty == old(state).difficulty,
        r is Ok <==> spec_find_user(old(state).users@, req.login@) is Some,
        r matches Err(e) ==> e == ApiError::UserNotExist && *final(state) == *old(state),
        r matches Ok(resp) ==> ({
            &&& spec_find_user(old(state).users@, req.login@) matches Some(secret)
                && spec_find_session(final(state).authorized@, req.login@) == Some(
                (challenge_hash(resp.time, secret), UserState::InProcess),
            )
            &&& forall|k: Seq<char>|
                k != req.login@ ==> spec_find_session(final(state).authorized@, k)
                    == spec_find_session(old(state).authorized@, k)
        }),
{
    let time = get_unix_time_in_secs();
    get_time_at(state, req, time)
}

/// Verifies the client's echoed challenge hash. On a match the ratchet
/// advances to the digest of the stored hash and the session becomes
/// authenticated; on a mismatch nothing changes, so the client may retry.
pub fn auth(state: &mut State, req: &LoginReqMessage) -> (r: Result<LoginSuccMessage, ApiError>)
    requires
        old(state).wf(),
    ensures
        final(state).wf(),
        final(state).users@ == old(state).users@,
        final(state).quotes@ == old(state).quotes@,
        final(state).difficulty == old(state).difficulty,
        r is Ok <==> auth_accepts(*old(state), req.login@, req.hash@),
        r matches Err(e) ==> e == auth_error(*old(state), req.login@) && *final(state) == *old(
            state,
        ),
        r matches Ok(resp) ==> ({
            &&& spec_find_session(old(state).authorized@, req.login@) matches Some((stored, us))
                && resp.hash@ == md5_hex_of(stored) && spec_find_session(
                final(state).authorized@,
                req.login@,
            ) == Some((md5_hex_of(stored), UserState::Auth))
            &&& resp.difficulty == old(state).difficulty
            &&& forall|k: Seq<char>|
                k != req.login@ ==> spec_find_session(final(state).authorized@, k)
                    == spec_find_session(old(state).authorized@, k)
        }),
{
    match get_session(&state.authorized, &req.login) {
        None => Err(ApiError::AuthNotStarted),
        Some((last_hash, us)) => {
            if us != UserState::InProcess {
                Err(ApiError::AuthNotStarted)
            } else if req.hash != last_hash {
                Err(ApiError::InvalidHash)
            } else {
                let new_hash = md5_hex(last_hash.as_str());
                let diff = state.difficulty;
                state.set_session(&req.login, new_hash.clone(), UserState::Auth);
                Ok(LoginSuccMessage { hash: new_hash, difficulty: diff })
            }
        },
    }
}

/// Verifies the proof of work against the current ratchet hash and, on
/// success, returns one quote from the corpus and advances the ratchet.
/// The session stays authenticated, so the step may be repeated, each
/// time against the freshly advanced hash. A failing nonce changes
/// nothing, so the client may retry.
pub fn get_quote(state: &mut State, req: &QuoteReqMessage) -> (r: Result<
    QuoteRespMessage,
    ApiError,
>)
    requires
        old(state).wf(),
        old(state).quotes@.len() > 0,
    ensures
        final(state).wf(),
        final(state).users@ == old(state).users@,
        final(state).quotes@ == old(state).quotes@,
        final(state).difficulty == old(state).difficulty,
        r is Ok <==> ({
            &&& quote_ready(*old(state), req.login@)
            &&& spec_find_session(old(state).authorized@, req.login@) matches Some((stored, us))
                && pow_ok(stored, req.pow, old(state).difficulty)
        }),
        r matches Err(e) ==> e == quote_error(*old(state), req.login@) && *final(state) == *old(
            state,
        ),
        r matches Ok(resp) ==> ({
            &&& spec_find_session(old(state).authorized@, req.login@) matches Some((stored, us))
                && resp.hash@ == md5_hex_of(stored) && spec_find_session(
                final(state).authorized@,
                req.login@,
            ) == Some((md5_hex_of(stored), UserState::Auth))
            &&& exists|i: int|
                0 <= i < old(state).quotes@.len() && resp.quote@ == old(state).quotes@[i]@
            &&& resp.difficulty == old(state).difficulty
            &&& forall|k: Seq<char>|
                k != req.login@ ==> spec_find_session(final(state).authorized@, k)
                    == spec_find_session(old(state).authorized@, k)
        }),
{
    match get_session(&state.authorized, &req.login) {
        None => Err(ApiError::AuthNotStarted),
        Some((last_hash, us)) => {
            if us != UserState::Auth {
                Err(ApiError::UserNotAuth)
            } else if !check_pow(&last_hash, req.pow, state.difficulty) {
                Err(ApiError::PovCheckFailed)
            } else {
                let idx = pick_index(state.quotes.len());
                let quote = state.quotes[idx].clone();
                let new_hash = md5_hex(last_hash.as_str());
                let diff = state.difficulty;
                state.set_session(&req.login, new_hash.clone(), UserState::Auth);
                proof {
                    assert(0 <= idx < old(state).quotes@.len() && quote@ == old(
                        state,
                    ).quotes@[idx as int]@);
                }
                Ok(QuoteRespMessage { quote, hash: new_hash, difficulty: diff })
            }
        },
    }
}

/// Verifies the final proof (digest of the ratchet hash and the secret)
/// and deletes the session: the login reverts to the unauthenticated
/// state and must begin a new challenge to use the resource again.
pub fn logout(state: &mut State, req: &LogoutReqMessage) -> (r: Result<
    LogoutSuccMessage,
    ApiError,
>)
    requires
        old(state).wf(),
    ensures
        final(state).wf(),
        final(state).users@ == old(state).users@,
        final(state).quotes@ == old(state).quotes@,
        final(state).difficulty == old(state).difficulty,
        r is Ok <==> logout_accepts(*old(state), req.login@, req.hash@),
        r matches Err(e) ==> e == logout_error(*old(state), req.login@) && *final(state) == *old(
            state,
        ),
        r is Ok ==> ({
            &&& spec_find_session(final(state).authorized@, req.login@) is None
            &&& forall|k: Seq<char>|
                k != req.login@ ==> spec_find_session(final(state).authorized@, k)
                    == spec_find_session(old(state).authorized@, k)
        }),
{
    match get_session(&state.authorized, &req.login) {
        None => Err(ApiError::AuthNotStarted),
        Some((last_hash, us)) => {
            match lookup_secret(&state.users, &req.login) {
                None => Err(ApiError::UserNotExist),
                Some(secret) => {
                    let expected = compute_logout_hash(last_hash.as_str(), secret.as_str());
                    if us != UserState::Auth {
                        Err(ApiError::UserNotAuth)
                    } else if req.hash != expected {
                        Err(ApiError::InvalidHash)
                    } else {
                        state.remove_session(&req.login);
                        Ok(LogoutSuccMessage {  })
                    }
                },
            }
        },
    }
}

} // verus!
