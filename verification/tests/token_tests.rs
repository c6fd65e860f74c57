use sftpgo_operator::time::{Timestamp, MIN_SECONDS};
use sftpgo_operator::token::{
    create_bearer_auth_header, AdminAccessToken, TokenStore, EXPIRY_MARGIN_SECONDS,
};

fn instant(seconds: i64) -> Timestamp {
    Timestamp { seconds, nanos: 0 }
}

fn issued(secret: &str, expires_at: Timestamp) -> AdminAccessToken {
    AdminAccessToken::new(secret.to_string(), expires_at).unwrap()
}

#[test]
fn bearer_header_is_the_word_bearer_and_the_token() {
    assert_eq!(create_bearer_auth_header("abc"), "Bearer abc");
    assert_eq!(create_bearer_auth_header(""), "Bearer ");
    assert_eq!(create_bearer_auth_header("a b\u{e9}"), "Bearer a b\u{e9}");
}

#[test]
fn margin_is_thirty_seconds() {
    assert_eq!(EXPIRY_MARGIN_SECONDS, 30);
}

#[test]
fn issued_token_keeps_what_it_was_made_with() {
    let token = issued("abc", Timestamp { seconds: 1_060, nanos: 7 });
    assert_eq!(token.access_token(), "abc");
    assert_eq!(token.expires_at(), Timestamp { seconds: 1_060, nanos: 7 });
    let copy = token.clone();
    assert_eq!(copy.access_token(), "abc");
    assert_eq!(copy.expires_at(), Timestamp { seconds: 1_060, nanos: 7 });
}

#[test]
fn issued_token_needs_room_for_the_margin() {
    assert!(AdminAccessToken::new("abc".to_string(), instant(MIN_SECONDS + 30)).is_some());
    assert!(AdminAccessToken::new("abc".to_string(), instant(MIN_SECONDS + 29)).is_none());
    assert!(AdminAccessToken::new("abc".to_string(), instant(i64::MAX)).is_none());
    assert!(
        AdminAccessToken::new("abc".to_string(), Timestamp { seconds: 100, nanos: 2_000_000_000 })
            .is_none()
    );
}

#[test]
fn new_store_is_empty() {
    let store = TokenStore::new();
    assert_eq!(store.expires_at(), None);
    assert_eq!(store.valid_header(&instant(0)), None);
    assert_eq!(store.valid_header(&instant(i64::MIN)), None);
}

#[test]
fn margin_correctness() {
    let t0 = 1_700_000_000;
    let mut store = TokenStore::new();
    let header = store.store(issued("abc", instant(t0 + 60)));
    assert_eq!(header, "Bearer abc");
    assert_eq!(store.expires_at(), Some(instant(t0 + 30)));
}

#[test]
fn margin_keeps_the_nanoseconds() {
    let mut store = TokenStore::new();
    store.store(issued("abc", Timestamp { seconds: 1_060, nanos: 123_456_789 }));
    assert_eq!(store.expires_at(), Some(Timestamp { seconds: 1_030, nanos: 123_456_789 }));
}

#[test]
fn margin_on_an_expiry_inside_a_leap_second() {
    let mut store = TokenStore::new();
    store.store(issued("abc", Timestamp { seconds: 1_199, nanos: 1_500_000_000 }));
    assert_eq!(store.expires_at(), Some(Timestamp { seconds: 1_170, nanos: 500_000_000 }));
}

#[test]
fn kept_token_is_served_strictly_before_its_usable_expiry() {
    let mut store = TokenStore::new();
    store.store(issued("abc", instant(1_060)));
    assert_eq!(store.valid_header(&instant(1_000)), Some("Bearer abc".to_string()));
    assert_eq!(
        store.valid_header(&Timestamp { seconds: 1_029, nanos: 999_999_999 }),
        Some("Bearer abc".to_string())
    );
    assert_eq!(store.valid_header(&instant(1_030)), None);
    assert_eq!(store.valid_header(&Timestamp { seconds: 1_030, nanos: 1 }), None);
    assert_eq!(store.valid_header(&instant(1_060)), None);
}

#[test]
fn storing_replaces_the_kept_token_whole() {
    let mut store = TokenStore::new();
    store.store(issued("first", instant(1_060)));
    let header = store.store(issued("second", instant(2_060)));
    assert_eq!(header, "Bearer second");
    assert_eq!(store.expires_at(), Some(instant(2_030)));
    assert_eq!(store.valid_header(&instant(1_000)), Some("Bearer second".to_string()));
}
