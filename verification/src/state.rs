use vstd::pervasive::VecAdditionalExecFns;
use vstd::prelude::*;

verus! {

/// The protocol state of one login's session.
///
/// The unauthenticated state is not stored: a login with no session
/// record is unauthenticated.
#[derive(Debug, Clone, Copy, PartialEq, Eq, Structural)]
pub enum UserState {
    /// The login has answered its challenge and may request quotes.
    Auth,
    /// A challenge has been issued and not yet answered.
    InProcess,
}

/// One registered login and its shared secret. Loaded once, never
/// mutated by the protocol.
pub struct Credential {
    pub login: String,
    pub secret: String,
}

/// One login's session: the current ratchet hash and the protocol state.
/// The hash is a one-time token: every successful step consumes it and
/// stores a value derived from it.
pub struct SessionRecord {
    pub login: String,
    pub hash: String,
    pub state: UserState,
}

/// The secret registered for `login`: the first credential with that
/// login, if any.
pub open spec fn spec_find_user(users: Seq<Credential>, login: Seq<char>) -> Option<Seq<char>>
    decreases users.len(),
{
    if users.len() == 0 {
        None
    } else if users[0].login@ == login {
        Some(users[0].secret@)
    } else {
        spec_find_user(users.drop_first(), login)
    }
}

/// The ratchet hash and state stored for `login`: the first session
/// record with that login, if any.
pub open spec fn spec_find_session(s: Seq<SessionRecord>, login: Seq<char>) -> Option<
    (Seq<char>, UserState),
>
    decreases s.len(),
{
    if s.len() == 0 {
        None
    } else if s[0].login@ == login {
        Some((s[0].hash@, s[0].state))
    } else {
        spec_find_session(s.drop_first(), login)
    }
}

/// The shared server state: the credential registry, the session store,
/// the quote corpus, and the process-wide proof-of-work difficulty.
pub struct State {
    pub users: Vec<Credential>,
    pub authorized: Vec<SessionRecord>,
    pub quotes: Vec<String>,
    pub difficulty: u64,
}

impl State {
    /// Well-formedness of the session store: one record per login.
    pub open spec fn wf(self) -> bool {
        forall|i: int, j: int|
            0 <= i < j < self.authorized@.len() ==> self.authorized@[i].login@
                != self.authorized@[j].login@
    }
}

pub proof fn lemma_find_user_at(users: Seq<Credential>, login: Seq<char>, i: int)
    requires
        0 <= i < users.len(),
        users[i].login@ == login,
        forall|j: int| 0 <= j < i ==> users[j].login@ != login,
    ensures
        spec_find_user(users, login) == Some(users[i].secret@),
    decreases i,
{
    if i > 0 {
        lemma_find_user_at(users.drop_first(), login, i - 1);
    }
}

pub proof fn lemma_find_user_none(users: Seq<Credential>, login: Seq<char>)
    requires
        forall|j: int| 0 <= j < users.len() ==> users[j].login@ != login,
    ensures
        spec_find_user(users, login) is None,
    decreases users.len(),
{
    if users.len() > 0 {
        lemma_find_user_none(users.drop_first(), login);
    }
}

pub proof fn lemma_find_session_at(s: Seq<SessionRecord>, login: Seq<char>, i: int)
    requires
        0 <= i < s.len(),
        s[i].login@ == login,
        forall|j: int| 0 <= j < i ==> s[j].login@ != login,
    ensures
        spec_find_session(s, login) == Some((s[i].hash@, s[i].state)),
    decreases i,
{
    if i > 0 {
        lemma_find_session_at(s.drop_first(), login, i - 1);
    }
}

pub proof fn lemma_find_session_none(s: Seq<SessionRecord>, login: Seq<char>)
    requires
        forall|j: int| 0 <= j < s.len() ==> s[j].login@ != login,
    ensures
        spec_find_session(s, login) is None,
    decreases s.len(),
{
    if s.len() > 0 {
        lemma_find_session_none(s.drop_first(), login);
    }
}

/// Overwriting the first record for a login changes that login's lookup
/// and no other.
pub proof fn lemma_find_session_update(
    s: Seq<SessionRecord>,
    i: int,
    r: SessionRecord,
    k: Seq<char>,
)
    requires
        0 <= i < s.len(),
        s[i].login@ == r.login@,
        forall|j: int| 0 <= j < i ==> s[j].login@ != r.login@,
    ensures
        spec_find_session(s.update(i, r), k) == if k == r.login@ {
            Some((r.hash@, r.state))
        } else {
            spec_find_session(s, k)
        },
    decreases s.len(),
{
    let s2 = s.update(i, r);
    if i == 0 {
        if k != r.login@ {
            assert(s2.drop_first() =~= s.drop_first());
        }
    } else {
        assert(s2.drop_first() =~= s.drop_first().update(i - 1, r));
        if s[0].login@ != k {
            lemma_find_session_update(s.drop_first(), i - 1, r, k);
        }
    }
}

/// Appending a record for a login not yet stored changes that login's
/// lookup and no other.
pub proof fn lemma_find_session_push(s: Seq<SessionRecord>, r: SessionRecord, k: Seq<char>)
    requires
        forall|j: int| 0 <= j < s.len() ==> s[j].login@ != r.login@,
    ensures
        spec_find_session(s.push(r), k) == if k == r.login@ {
            Some((r.hash@, r.state))
        } else {
            spec_find_session(s, k)
        },
    decreases s.len(),
{
    if s.len() == 0 {
        assert(s.push(r).drop_first() =~= Seq::<SessionRecord>::empty());
    } else {
        assert(s.push(r).drop_first() =~= s.drop_first().push(r));
        if s[0].login@ != k {
            lemma_find_session_push(s.drop_first(), r, k);
        }
    }
}

/// Removing the only record for a login empties that login's lookup and
/// changes no other.
pub proof fn lemma_find_session_remove(s: Seq<SessionRecord>, i: int, k: Seq<char>)
    requires
        0 <= i < s.len(),
        forall|j: int| 0 <= j < s.len() && j != i ==> s[j].login@ != s[i].login@,
    ensures
        spec_find_session(s.remove(i), k) == if k == s[i].login@ {
            None::<(Seq<char>, UserState)>
        } else {
            spec_find_session(s, k)
        },
    decreases s.len(),
{
    if i == 0 {
        assert(s.remove(0) =~= s.drop_first());
        if k == s[0].login@ {
            lemma_find_session_none(s.drop_first(), k);
        }
    } else {
        assert(s.remove(i).drop_first() =~= s.drop_first().remove(i - 1));
        if s[0].login@ != k {
            lemma_find_session_remove(s.drop_first(), i - 1, k);
        }
    }
}

/// The position of the first session record for `login`, if any.
fn session_index(s: &Vec<SessionRecord>, login: &String) -> (r: Option<usize>)
    ensures
        match r {
            Some(i) => {
                &&& i < s@.len()
                &&& s@[i as int].login@ == login@
                &&& forall|j: int| 0 <= j < i ==> s@[j].login@ != login@
            },
            None => forall|j: int| 0 <= j < s@.len() ==> s@[j].login@ != login@,
        },
{
    let mut i: usize = 0;
    while i < s.len()
        invariant
            i <= s@.len(),
            forall|j: int| 0 <= j < i ==> s@[j].login@ != login@,
        decreases s@.len() - i,
    {
        if s[i].login == *login {
            return Some(i);
        }
        i = i + 1;
    }
    None
}

/// The secret registered for `login`, if any.
pub fn lookup_secret(users: &Vec<Credential>, login: &String) -> (r: Option<String>)
    ensures
        match r {
            Some(secret) => spec_find_user(users@, login@) == Some(secret@),
            None => spec_find_user(users@, login@) is None,
        },
{
    let mut i: usize = 0;
    while i < users.len()
        invariant
            i <= users@.len(),
            forall|j: int| 0 <= j < i ==> users@[j].login@ != login@,
        decreases users@.len() - i,
    {
        if users[i].login == *login {
            proof {
                lemma_find_user_at(users@, login@, i as int);
            }
            return Some(users[i].secret.clone());
        }
        i = i + 1;
    }
    proof {
        lemma_find_user_none(users@, login@);
    }
    None
}

/// The ratchet hash and state stored for `login`, if any.
pub fn get_session(s: &Vec<SessionRecord>, login: &String) -> (r: Option<(String, UserState)>)
    ensures
        match r {
            Some(p) => spec_find_session(s@, login@) == Some((p.0@, p.1)),
            None => spec_find_session(s@, login@) is None,
        },
{
    match session_index(s, login) {
        Some(i) => {
            proof {
                lemma_find_session_at(s@, login@, i as int);
            }
            Some((s[i].hash.clone(), s[i].state))
        },
        None => {
            proof {
                lemma_find_session_none(s@, login@);
            }
            None
        },
    }
}

impl State {
    /// Stores `(hash, st)` for `login`, overwriting any prior record:
    /// the store's atomic insert-or-replace.
    pub fn set_session(&mut self, login: &String, hash: String, st: UserState)
        requires
            old(self).wf(),
        ensures
            final(self).wf(),
            final(self).users@ == old(self).users@,
            final(self).quotes@ == old(self).quotes@,
            final(self).difficulty == old(self).difficulty,
            spec_find_session(final(self).authorized@, login@) == Some((hash@, st)),
            forall|k: Seq<char>|
                k != login@ ==> spec_find_session(final(self).authorized@, k) == spec_find_session(
                    old(self).authorized@,
                    k,
                ),
    {
        let ghost s0 = self.authorized@;
        let r = SessionRecord { login: login.clone(), hash, state: st };
        match session_index(&self.authorized, login) {
            Some(i) => {
                self.authorized.set(i, r);
                proof {
                    assert forall|k: Seq<char>|
                        spec_find_session(self.authorized@, k) == if k == login@ {
                            Some((r.hash@, r.state))
                        } else {
                            spec_find_session(s0, k)
                        } by {
                        lemma_find_session_update(s0, i as int, r, k);
                    }
                    assert forall|m: int| 0 <= m < self.authorized@.len() implies self.authorized@[m].login@
                        == s0[m].login@ by {}
                }
            },
            None => {
                self.authorized.push(r);
                proof {
                    assert forall|k: Seq<char>|
                        spec_find_session(self.authorized@, k) == if k == login@ {
                            Some((r.hash@, r.state))
                        } else {
                            spec_find_session(s0, k)
                        } by {
                        lemma_find_session_push(s0, r, k);
                    }
                }
            },
        }
    }

    /// Removes any record stored for `login`: the store's delete.
    pub fn remove_session(&mut self, login: &String)
        requires
            old(self).wf(),
        ensures
            final(self).wf(),
            final(self).users@ == old(self).users@,
            final(self).quotes@ == old(self).quotes@,
            final(self).difficulty == old(self).difficulty,
            spec_find_session(final(self).authorized@, login@) is None,
            forall|k: Seq<char>|
                k != login@ ==> spec_find_session(final(self).authorized@, k) == spec_find_session(
                    old(self).authorized@,
                    k,
                ),
    {
        let ghost s0 = self.authorized@;
        match session_index(&self.authorized, login) {
            Some(i) => {
                self.authorized.remove(i);
                proof {
                    assert forall|k: Seq<char>|
                        spec_find_session(self.authorized@, k) == if k == login@ {
                            None::<(Seq<char>, UserState)>
                        } else {
                            spec_find_session(s0, k)
                        } by {
                        lemma_find_session_remove(s0, i as int, k);
                    }
                }
            },
            None => {
                proof {
                    lemma_find_session_none(s0, login@);
                }
            },
        }
    }

    /// The reference configuration: three registered logins, five quotes
    /// from the Book of Wisdom, difficulty four. The session store starts
    /// empty.
    pub fn new() -> (r: State)
        ensures
            r.wf(),
            r.authorized@.len() == 0,
            r.difficulty == 4,
            r.quotes@.len() == 5,
            forall|i: int| 0 <= i < r.quotes@.len() ==> r.quotes@[i]@.len() > 0,
            spec_find_user(r.users@, "one"@) == Some("pass1"@),
            spec_find_user(r.users@, "two"@) == Some("pass2"@),
            spec_find_user(r.users@, "three"@) == Some("pass3"@),
            forall|k: Seq<char>|
                k != "one"@ && k != "two"@ && k != "three"@ ==> spec_find_user(r.users@, k)
                    is None,
    {
        let users = vec![
            Credential { login: "one".to_owned(), secret: "pass1".to_owned() },
            Credential { login: "two".to_owned(), secret: "pass2".to_owned() },
            Credential { login: "three".to_owned(), secret: "pass3".to_owned() },
        ];
        let authorized: Vec<SessionRecord> = Vec::new();
        let quotes = vec![
            r#"
            The ungodly ... reasoned unsoundly, saying to themselves,...
            we were born by mere chance,
            and hereafter we shall be as though we had never been,
            for the breath in our nostrils is smoke,
            and reason is a spark kindled by the beating of our hearts
            when it is extinguished, the body will turn to ashes,
            and the spirit will dissolve like empty air.
            "#.to_owned(),
            r#"
            The ungodly ... reasoned unsoundly, saying to themselves,...
            Come, therefore, let us enjoy the good things that exist,
            and make use of the creation to the full as in youth.
            Let us take our fill of costly wine and perfumes,
            and let no flower of spring pass us by.
            Let us crown ourselves with rosebuds before they wither.
            Let none of us fail to share in our revelry;
            everywhere let us leave signs of enjoyment,
            because this is our portion, and this our lot.
            Let us oppress the righteous poor man;
            let us not spare the widow
            or regard the gray hairs of the aged.
            But let our might be our law of right,
            for what is weak proves itself to be useless.
            "#.to_owned(),
            r#"
            Thus they reasoned, but they were led astray, ...
            for God created us for incorruption,
            and made us in the image of his own eternity.
            "#.to_owned(),
            r#"
            In the memory of virtue is immortality,
            because it is known both by God and by mortals.
            When it is present, people imitate it,
            and they long for it when it has gone;
            throughout all time it marches, crowned in triumph.
            "#.to_owned(),
            r#"
            What has our arrogance profited us?
            And what good has our boasted wealth brought us?
            All those things have vanished like a shadow,
            and like a rumor that passes by;
            like a ship that sails through the billowy water,
            and when it has passed no trace can be found,
            no track of its keel in the waves.
            "#.to_owned(),
        ];
        let st = State { users, authorized, quotes, difficulty: 4 };
        proof {
            reveal_strlit(r#"
            The ungodly ... reasoned unsoundly, saying to themselves,...
            we were born by mere chance,
            and hereafter we shall be as though we had never been,
            for the breath in our nostrils is smoke,
            and reason is a spark kindled by the beating of our hearts
            when it is extinguished, the body will turn to ashes,
            and the spirit will dissolve like empty air.
            "#);
            reveal_strlit(r#"
            The ungodly ... reasoned unsoundly, saying to themselves,...
            Come, therefore, let us enjoy the good things that exist,
            and make use of the creation to the full as in youth.
            Let us take our fill of costly wine and perfumes,
            and let no flower of spring pass us by.
            Let us crown ourselves with rosebuds before they wither.
            Let none of us fail to share in our revelry;
            everywhere let us leave signs of enjoyment,
            because this is our portion, and this our lot.
            Let us oppress the righteous poor man;
            let us not spare the widow
            or regard the gray hairs of the aged.
            But let our might be our law of right,
            for what is weak proves itself to be useless.
            "#);
            reveal_strlit(r#"
            Thus they reasoned, but they were led astray, ...
            for God created us for incorruption,
            and made us in the image of his own eternity.
            "#);
            reveal_strlit(r#"
            In the memory of virtue is immortality,
            because it is known both by God and by mortals.
            When it is present, people imitate it,
            and they long for it when it has gone;
            throughout all time it marches, crowned in triumph.
            "#);
            reveal_strlit(r#"
            What has our arrogance profited us?
            And what good has our boasted wealth brought us?
            All those things have vanished like a shadow,
            and like a rumor that passes by;
            like a ship that sails through the billowy water,
            and when it has passed no trace can be found,
            no track of its keel in the waves.
            "#);
            assert(st.quotes@[0]@.len() > 0);
            assert(st.quotes@[1]@.len() > 0);
            assert(st.quotes@[2]@.len() > 0);
            assert(st.quotes@[3]@.len() > 0);
            assert(st.quotes@[4]@.len() > 0);
            reveal_strlit("one");
            reveal_strlit("two");
            reveal_strlit("three");
            assert("one"@[0] == 'o' && "two"@[0] == 't' && "three"@[0] == 't');
            assert("two"@.len() == 3 && "three"@.len() == 5);
            assert("one"@ != "two"@);
            assert("one"@ != "three"@);
            assert("two"@ != "three"@);
            lemma_find_user_at(st.users@, "one"@, 0);
            lemma_find_user_at(st.users@, "two"@, 1);
            lemma_find_user_at(st.users@, "three"@, 2);
            assert forall|k: Seq<char>|
                k != "one"@ && k != "two"@ && k != "three"@ implies spec_find_user(st.users@, k)
                is None by {
                lemma_find_user_none(st.users@, k);
            }
        }
        st
    }
}

} // verus!
