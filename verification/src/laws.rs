use vstd::prelude::*;

use crate::handlers::{auth_accepts, quote_ready};
use crate::hashing::{challenge_hash, md5_hex_of};
use crate::state::{spec_find_session, State, UserState};

verus! {

/// The ratchet value after `n` successful advances from `h`: the n-fold
/// digest of `h`.
pub open spec fn iter_hash(h: Seq<char>, n: nat) -> Seq<char>
    decreases n,
{
    if n == 0 {
        h
    } else {
        md5_hex_of(iter_hash(h, (n - 1) as nat))
    }
}

/// Determinism of the challenge: while the challenge issued at `time` is
/// pending for a login, the hashes `auth` accepts are exactly the single
/// value a client derives on its own from the echoed time and its copy of
/// the secret — the derivation is a pure function of `(time, secret)`.
pub proof fn lemma_auth_accepts_recomputed(
    st: State,
    login: Seq<char>,
    time: u64,
    secret: Seq<char>,
)
    requires
        spec_find_session(st.authorized@, login) == Some(
            (challenge_hash(time, secret), UserState::InProcess),
        ),
    ensures
        forall|h: Seq<char>| auth_accepts(st, login, h) <==> h == challenge_hash(time, secret),
{
}

/// Single consumption: once a challenge hash has been accepted — the
/// session holds the advanced hash and the authenticated state — `auth`
/// accepts no hash at all for that login until a new challenge is begun.
pub proof fn lemma_single_consumption(st: State, login: Seq<char>, advanced: Seq<char>)
    requires
        spec_find_session(st.authorized@, login) == Some((advanced, UserState::Auth)),
    ensures
        forall|h: Seq<char>| !auth_accepts(st, login, h),
{
}

proof fn lemma_ratchet_chain_at(chain: Seq<Seq<char>>, i: int)
    requires
        0 <= i < chain.len(),
        forall|j: int| 0 <= j < chain.len() - 1 ==> chain[j + 1] == md5_hex_of(chain[j]),
    ensures
        chain[i] == iter_hash(chain[0], i as nat),
    decreases i,
{
    if i > 0 {
        lemma_ratchet_chain_at(chain, i - 1);
        assert(chain[(i - 1) + 1] == md5_hex_of(chain[i - 1]));
    }
}

/// Monotonic ratchet: when each successful step stores the digest of its
/// predecessor's hash — what the contracts of `auth` and `get_quote` state
/// of the store — the stored values form the chain h, H(h), H(H(h)), ...:
/// each is strictly derived from its predecessor by one digest.
pub proof fn lemma_monotonic_ratchet(chain: Seq<Seq<char>>)
    requires
        forall|j: int| 0 <= j < chain.len() - 1 ==> chain[j + 1] == md5_hex_of(chain[j]),
    ensures
        forall|i: int| 0 <= i < chain.len() ==> #[trigger] chain[i] == iter_hash(chain[0], i as nat),
{
    assert forall|i: int| 0 <= i < chain.len() implies #[trigger] chain[i] == iter_hash(
        chain[0],
        i as nat,
    ) by {
        lemma_ratchet_chain_at(chain, i);
    }
}

/// Logout finality: once no session record is stored for a login — what
/// `logout` ensures on success — `auth` accepts no hash and no quote
/// request passes the session checks, until a new challenge is begun.
pub proof fn lemma_logout_finality(st: State, login: Seq<char>)
    requires
        spec_find_session(st.authorized@, login) is None,
    ensures
        forall|h: Seq<char>| !auth_accepts(st, login, h),
        !quote_ready(st, login),
{
}

} // verus!
