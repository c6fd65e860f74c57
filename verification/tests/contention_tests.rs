use sftpgo_operator::admin_token::{on_exclusive, on_issued, on_shared, ExclusiveStep, SharedStep};
use sftpgo_operator::reconciler::Error;
use sftpgo_operator::time::Timestamp;
use sftpgo_operator::token::{AdminAccessToken, TokenStore};

const NOW: i64 = 1_700_000_000;

fn at(seconds: i64) -> Timestamp {
    Timestamp { seconds, nanos: 0 }
}

/// Plays the issuer: counts the calls and names each token after its number.
fn issue(calls: &mut u32, expires_at: Timestamp) -> Result<AdminAccessToken, Error> {
    *calls += 1;
    Ok(AdminAccessToken::new(format!("token-{}", calls), expires_at).unwrap())
}

/// Runs one caller from the exclusive lock on, as the protocol directs.
fn finish_under_exclusive_lock(store: &mut TokenStore, now: Timestamp, calls: &mut u32) -> String {
    match on_exclusive(store, &now, "admin", "s3cret") {
        ExclusiveStep::Serve(header) => header,
        ExclusiveStep::Issue { username, password } => {
            assert_eq!((username.as_str(), password.as_str()), ("admin", "s3cret"));
            let reply = issue(calls, at(NOW + 120));
            on_issued(store, reply).unwrap()
        }
    }
}

#[test]
fn stampede_of_callers_asks_the_issuer_once() {
    let callers = 64;
    let mut store = TokenStore::new();
    let mut calls = 0;
    // Every caller looks under the shared lock before anyone has refreshed.
    for _ in 0..callers {
        assert_eq!(on_shared(&store, &at(NOW)), SharedStep::AcquireExclusive);
    }
    // They then get the exclusive lock one after the other.
    let mut headers = Vec::new();
    for turn in 0..callers {
        headers.push(finish_under_exclusive_lock(&mut store, at(NOW + turn), &mut calls));
    }
    assert_eq!(calls, 1);
    assert_eq!(headers.len(), 64);
    for header in &headers {
        assert_eq!(header, "Bearer token-1");
    }
}

#[test]
fn stampede_against_a_stale_token_asks_the_issuer_once() {
    let mut store = TokenStore::new();
    store.store(AdminAccessToken::new("old".to_string(), at(NOW + 30)).unwrap());
    let mut calls = 0;
    let mut headers = Vec::new();
    // Callers arrive in pairs: the first of each pair looks before the
    // second has finished, the second after the first.
    for pair in 0..25 {
        let now = at(NOW + pair);
        let first_look = on_shared(&store, &now);
        let second_look = on_shared(&store, &now);
        for look in [first_look, second_look] {
            match look {
                SharedStep::Serve(header) => headers.push(header),
                SharedStep::AcquireExclusive => {
                    headers.push(finish_under_exclusive_lock(&mut store, now, &mut calls))
                }
            }
        }
    }
    assert_eq!(calls, 1);
    assert_eq!(headers.len(), 50);
    assert!(headers.iter().all(|header| header == "Bearer token-1"));
}

#[test]
fn loser_of_the_race_is_served_the_winners_token() {
    let mut store = TokenStore::new();
    let mut calls = 0;
    assert_eq!(on_shared(&store, &at(NOW)), SharedStep::AcquireExclusive);
    assert_eq!(on_shared(&store, &at(NOW)), SharedStep::AcquireExclusive);
    let winner = finish_under_exclusive_lock(&mut store, at(NOW), &mut calls);
    assert_eq!(calls, 1);
    assert_eq!(
        on_exclusive(&store, &at(NOW + 1), "admin", "s3cret"),
        ExclusiveStep::Serve(winner.clone())
    );
    assert_eq!(winner, "Bearer token-1");
    assert_eq!(calls, 1);
}

#[test]
fn loser_asks_again_if_the_winners_token_is_already_stale() {
    let mut store = TokenStore::new();
    let mut calls = 0;
    let winner = finish_under_exclusive_lock(&mut store, at(NOW), &mut calls);
    assert_eq!(winner, "Bearer token-1");
    // The loser gets the lock only after the winner's token has run out.
    let loser = finish_under_exclusive_lock(&mut store, at(NOW + 90), &mut calls);
    assert_eq!(loser, "Bearer token-2");
    assert_eq!(calls, 2);
}

#[test]
fn failed_refresh_lets_the_next_caller_try() {
    let mut store = TokenStore::new();
    assert_eq!(
        on_exclusive(&store, &at(NOW), "admin", "s3cret"),
        ExclusiveStep::Issue { username: "admin".to_string(), password: "s3cret".to_string() }
    );
    assert_eq!(
        on_issued(&mut store, Err(Error::AuthIssuance("unreachable".to_string()))),
        Err(Error::AuthIssuance("unreachable".to_string()))
    );
    let mut calls = 0;
    assert_eq!(finish_under_exclusive_lock(&mut store, at(NOW), &mut calls), "Bearer token-1");
    assert_eq!(calls, 1);
}
