use psst_core::token::{AccessToken, TokenProvider, TokenStep};

fn token(s: &str, expires: u64) -> AccessToken {
    AccessToken { token: s.to_string(), expires }
}

#[test]
fn fifty_concurrent_callers_cause_one_fetch() {
    // Fifty callers take their turn while the cache is empty: exactly one
    // is told to fetch, the other forty-nine wait for its result.
    let mut p = TokenProvider::new();
    let now = 1_000;
    let mut fetches = 0;
    let mut waits = 0;
    for _ in 0..50 {
        match p.get_step(now) {
            TokenStep::StartFetch => fetches += 1,
            TokenStep::AwaitFetch => waits += 1,
            TokenStep::Ready => panic!("no token is cached yet"),
        }
    }
    assert_eq!(fetches, 1);
    assert_eq!(waits, 49);

    // The one fetch completes; all fifty callers now read the same token
    // with the same expiry from the cache.
    p.complete_fetch(token("bearer-credential", 5_000));
    for _ in 0..50 {
        let t = p.get_cached(now).unwrap();
        assert_eq!(t.token, "bearer-credential");
        assert_eq!(t.expires, 5_000);
    }
}

#[test]
fn cached_token_is_served_without_a_fetch() {
    let mut p = TokenProvider::new();
    p.complete_fetch(token("tok", 100));
    assert_eq!(p.get_step(99), TokenStep::Ready);
    assert_eq!(p.get_cached(99).unwrap().expires, 100);
}

#[test]
fn expired_token_is_never_handed_out() {
    let mut p = TokenProvider::new();
    p.complete_fetch(token("tok", 100));
    // Usable only strictly before the expiry instant.
    assert!(p.get_cached(99).is_some());
    assert!(p.get_cached(100).is_none());
    assert!(p.get_cached(101).is_none());
    // An expired cache entry forces a new fetch.
    assert_eq!(p.get_step(100), TokenStep::StartFetch);
}

#[test]
fn failed_fetch_ends_the_flight_without_caching() {
    let mut p = TokenProvider::new();
    assert_eq!(p.get_step(0), TokenStep::StartFetch);
    p.fail_fetch();
    assert!(p.get_cached(0).is_none());
    // The next caller may try again: the failure was surfaced, not retried.
    assert_eq!(p.get_step(0), TokenStep::StartFetch);
}

#[test]
fn fresh_provider_has_no_token() {
    let p = TokenProvider::new();
    assert!(p.get_cached(0).is_none());
}
