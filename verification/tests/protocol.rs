use wisdom::errors::ApiError;
use wisdom::handlers::{auth, get_quote, get_time, get_time_at, logout};
use wisdom::messages::{LoginReqMessage, LogoutReqMessage, QuoteReqMessage, ReqTimeMessage};
use wisdom::pow::calc_pow;
use wisdom::state::{Credential, State, UserState};

fn md5_hex(s: &str) -> String {
    format!("{:x}", md5::compute(s.as_bytes()))
}

fn small_state(difficulty: u64) -> State {
    State {
        users: vec![Credential {
            login: "alice".to_owned(),
            secret: "s3cret".to_owned(),
        }],
        authorized: vec![],
        quotes: vec!["a word of wisdom".to_owned(), "another word".to_owned()],
        difficulty,
    }
}

#[test]
fn end_to_end_scenario() {
    let mut st = small_state(2);
    let req = ReqTimeMessage {
        login: "alice".to_owned(),
    };
    let resp = get_time_at(&mut st, &req, 1000).unwrap();
    assert_eq!(resp.time, 1000);

    // the client recomputes the challenge hash from the echoed time
    let h0 = md5_hex("1000s3cret");
    let login_resp = auth(
        &mut st,
        &LoginReqMessage {
            login: "alice".to_owned(),
            hash: h0.clone(),
        },
    )
    .unwrap();
    let h1 = md5_hex(&h0);
    assert_eq!(login_resp.hash, h1);
    assert_eq!(login_resp.difficulty, 2);

    let work = calc_pow(2, &login_resp.hash).unwrap();
    assert!(md5_hex(&format!("{}{}", h1, work)).starts_with("00"));
    let quote_resp = get_quote(
        &mut st,
        &QuoteReqMessage {
            login: "alice".to_owned(),
            pow: work,
        },
    )
    .unwrap();
    let h2 = md5_hex(&h1);
    assert_eq!(quote_resp.hash, h2);
    assert_eq!(quote_resp.difficulty, 2);
    assert!(
        quote_resp.quote == "a word of wisdom" || quote_resp.quote == "another word",
        "quote must come from the corpus"
    );

    let expected = md5_hex(&format!("{}{}", h2, "s3cret"));
    logout(
        &mut st,
        &LogoutReqMessage {
            login: "alice".to_owned(),
            hash: expected,
        },
    )
    .unwrap();

    let after = get_quote(
        &mut st,
        &QuoteReqMessage {
            login: "alice".to_owned(),
            pow: 0,
        },
    );
    assert_eq!(after, Err(ApiError::AuthNotStarted));
}

#[test]
fn single_consumption() {
    let mut st = small_state(0);
    let req = ReqTimeMessage {
        login: "alice".to_owned(),
    };
    get_time_at(&mut st, &req, 42).unwrap();
    let h0 = md5_hex("42s3cret");
    let login_req = LoginReqMessage {
        login: "alice".to_owned(),
        hash: h0,
    };
    assert!(auth(&mut st, &login_req).is_ok());
    // the first call consumed the challenge hash and changed the state
    assert_eq!(auth(&mut st, &login_req), Err(ApiError::AuthNotStarted));
}

#[test]
fn non_destructive_rejection_auth() {
    let mut st = small_state(0);
    let req = ReqTimeMessage {
        login: "alice".to_owned(),
    };
    get_time_at(&mut st, &req, 7).unwrap();
    let wrong = LoginReqMessage {
        login: "alice".to_owned(),
        hash: "0123456789abcdef0123456789abcdef".to_owned(),
    };
    assert_eq!(auth(&mut st, &wrong), Err(ApiError::InvalidHash));
    // the stored ratchet hash did not advance: the original value still works
    let right = LoginReqMessage {
        login: "alice".to_owned(),
        hash: md5_hex("7s3cret"),
    };
    assert!(auth(&mut st, &right).is_ok());
}

#[test]
fn non_destructive_rejection_pow() {
    let mut st = small_state(1);
    let req = ReqTimeMessage {
        login: "alice".to_owned(),
    };
    get_time_at(&mut st, &req, 9).unwrap();
    let h0 = md5_hex("9s3cret");
    let h1 = auth(
        &mut st,
        &LoginReqMessage {
            login: "alice".to_owned(),
            hash: h0,
        },
    )
    .unwrap()
    .hash;

    // find a nonce whose digest does not meet the difficulty
    let mut bad: u64 = 1;
    while md5_hex(&format!("{}{}", h1, bad)).starts_with("0") {
        bad += 1;
    }
    let bad_req = QuoteReqMessage {
        login: "alice".to_owned(),
        pow: bad,
    };
    assert_eq!(get_quote(&mut st, &bad_req), Err(ApiError::PovCheckFailed));

    // the ratchet hash is unchanged, so a good nonce against it still works
    let good = calc_pow(1, &h1).unwrap();
    let good_req = QuoteReqMessage {
        login: "alice".to_owned(),
        pow: good,
    };
    assert!(get_quote(&mut st, &good_req).is_ok());
}

#[test]
fn monotonic_ratchet() {
    // difficulty zero: every nonce passes, so the ratchet chain is easy to walk
    let mut st = small_state(0);
    let req = ReqTimeMessage {
        login: "alice".to_owned(),
    };
    get_time_at(&mut st, &req, 5).unwrap();
    let h0 = md5_hex("5s3cret");
    let mut expected = md5_hex(&h0);
    let login_resp = auth(
        &mut st,
        &LoginReqMessage {
            login: "alice".to_owned(),
            hash: h0,
        },
    )
    .unwrap();
    assert_eq!(login_resp.hash, expected);
    for _ in 0..4 {
        let resp = get_quote(
            &mut st,
            &QuoteReqMessage {
                login: "alice".to_owned(),
                pow: 1,
            },
        )
        .unwrap();
        // each hash is the digest of its predecessor
        expected = md5_hex(&expected);
        assert_eq!(resp.hash, expected);
    }
}

#[test]
fn logout_finality() {
    let mut st = small_state(0);
    let req = ReqTimeMessage {
        login: "alice".to_owned(),
    };
    get_time_at(&mut st, &req, 11).unwrap();
    let h0 = md5_hex("11s3cret");
    let h1 = auth(
        &mut st,
        &LoginReqMessage {
            login: "alice".to_owned(),
            hash: h0,
        },
    )
    .unwrap()
    .hash;
    let expected = md5_hex(&format!("{}{}", h1, "s3cret"));
    logout(
        &mut st,
        &LogoutReqMessage {
            login: "alice".to_owned(),
            hash: expected,
        },
    )
    .unwrap();

    let quote_req = QuoteReqMessage {
        login: "alice".to_owned(),
        pow: 1,
    };
    assert_eq!(get_quote(&mut st, &quote_req), Err(ApiError::AuthNotStarted));
    let login_req = LoginReqMessage {
        login: "alice".to_owned(),
        hash: md5_hex("11s3cret"),
    };
    assert_eq!(auth(&mut st, &login_req), Err(ApiError::AuthNotStarted));
    // a new challenge opens the door again
    assert!(get_time_at(&mut st, &req, 12).is_ok());
}

#[test]
fn begin_challenge_discards_prior_session() {
    let mut st = small_state(0);
    let req = ReqTimeMessage {
        login: "alice".to_owned(),
    };
    get_time_at(&mut st, &req, 20).unwrap();
    auth(
        &mut st,
        &LoginReqMessage {
            login: "alice".to_owned(),
            hash: md5_hex("20s3cret"),
        },
    )
    .unwrap();
    // a fresh challenge overwrites the authenticated session
    get_time_at(&mut st, &req, 21).unwrap();
    let quote_req = QuoteReqMessage {
        login: "alice".to_owned(),
        pow: 1,
    };
    assert_eq!(get_quote(&mut st, &quote_req), Err(ApiError::UserNotAuth));
    // the old challenge hash no longer works, the new one does
    assert_eq!(
        auth(
            &mut st,
            &LoginReqMessage {
                login: "alice".to_owned(),
                hash: md5_hex("20s3cret"),
            },
        ),
        Err(ApiError::InvalidHash)
    );
    assert!(auth(
        &mut st,
        &LoginReqMessage {
            login: "alice".to_owned(),
            hash: md5_hex("21s3cret"),
        },
    )
    .is_ok());
}

#[test]
fn unknown_user_rejected() {
    let mut st = small_state(0);
    let req = ReqTimeMessage {
        login: "mallory".to_owned(),
    };
    assert_eq!(get_time_at(&mut st, &req, 1), Err(ApiError::UserNotExist));
    assert_eq!(get_time(&mut st, &req), Err(ApiError::UserNotExist));
}

#[test]
fn quote_and_logout_require_auth_state() {
    let mut st = small_state(0);
    let req = ReqTimeMessage {
        login: "alice".to_owned(),
    };
    get_time_at(&mut st, &req, 3).unwrap();
    // still in process: a quote request is refused without touching the record
    let quote_req = QuoteReqMessage {
        login: "alice".to_owned(),
        pow: 1,
    };
    assert_eq!(get_quote(&mut st, &quote_req), Err(ApiError::UserNotAuth));
    let logout_req = LogoutReqMessage {
        login: "alice".to_owned(),
        hash: "anything".to_owned(),
    };
    assert_eq!(logout(&mut st, &logout_req), Err(ApiError::UserNotAuth));
    // the pending challenge survived both rejections
    assert!(auth(
        &mut st,
        &LoginReqMessage {
            login: "alice".to_owned(),
            hash: md5_hex("3s3cret"),
        },
    )
    .is_ok());
}

#[test]
fn logout_wrong_hash_rejected() {
    let mut st = small_state(0);
    let req = ReqTimeMessage {
        login: "alice".to_owned(),
    };
    get_time_at(&mut st, &req, 8).unwrap();
    auth(
        &mut st,
        &LoginReqMessage {
            login: "alice".to_owned(),
            hash: md5_hex("8s3cret"),
        },
    )
    .unwrap();
    let bad = LogoutReqMessage {
        login: "alice".to_owned(),
        hash: "0123456789abcdef0123456789abcdef".to_owned(),
    };
    assert_eq!(logout(&mut st, &bad), Err(ApiError::InvalidHash));
    // the session is still authenticated
    let quote_req = QuoteReqMessage {
        login: "alice".to_owned(),
        pow: 1,
    };
    assert!(get_quote(&mut st, &quote_req).is_ok());
}

#[test]
fn logout_unregistered_login() {
    // a session record for a login missing from the registry
    let mut st = State {
        users: vec![],
        authorized: vec![wisdom::state::SessionRecord {
            login: "ghost".to_owned(),
            hash: "deadbeef".to_owned(),
            state: UserState::Auth,
        }],
        quotes: vec!["q".to_owned()],
        difficulty: 0,
    };
    let req = LogoutReqMessage {
        login: "ghost".to_owned(),
        hash: "deadbeef".to_owned(),
    };
    assert_eq!(logout(&mut st, &req), Err(ApiError::UserNotExist));
}

#[test]
fn reference_state_corpus() {
    let st = State::new();
    assert_eq!(st.quotes.len(), 5);
    assert!(st.quotes.iter().all(|q| !q.is_empty()));
    assert!(st.authorized.is_empty());
}

#[test]
fn reference_state_full_flow() {
    let mut st = State::new();
    assert_eq!(st.difficulty, 4);
    assert_eq!(st.quotes.len(), 5);
    let req = ReqTimeMessage {
        login: "one".to_owned(),
    };
    let resp = get_time(&mut st, &req).unwrap();
    let h0 = md5_hex(&format!("{}{}", resp.time, "pass1"));
    let login_resp = auth(
        &mut st,
        &LoginReqMessage {
            login: "one".to_owned(),
            hash: h0.clone(),
        },
    )
    .unwrap();
    assert_eq!(login_resp.hash, md5_hex(&h0));
    assert_eq!(login_resp.difficulty, 4);
    let work = calc_pow(login_resp.difficulty, &login_resp.hash).unwrap();
    let quote_resp = get_quote(
        &mut st,
        &QuoteReqMessage {
            login: "one".to_owned(),
            pow: work,
        },
    )
    .unwrap();
    assert!(st.quotes.contains(&quote_resp.quote));
    let expected = md5_hex(&format!("{}{}", quote_resp.hash, "pass1"));
    logout(
        &mut st,
        &LogoutReqMessage {
            login: "one".to_owned(),
            hash: expected,
        },
    )
    .unwrap();
    assert!(st.authorized.is_empty());
}
