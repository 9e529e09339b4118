use axum_session_auth::{
    AuthCache, AuthConfig, BackendFailurePolicy, Identity, LoadOutcome, Lookup,
};

#[derive(Clone, Debug, PartialEq)]
struct User {
    id: i64,
    name: String,
}

fn user(id: i64, name: &str) -> User {
    User { id, name: name.to_string() }
}

fn is_anonymous<U>(l: &Lookup<U>) -> bool {
    matches!(l, Lookup::Anonymous)
}

#[test]
fn fresh_visitor_without_anonymous_key_is_anonymous() {
    let config = AuthConfig::new();
    let c: AuthCache<User> = AuthCache::new(0);
    let l = c.lookup(&config, None, 1000);
    assert!(is_anonymous(&l));
    assert!(c.is_empty());
}

#[test]
fn fresh_visitor_with_anonymous_key_looks_up_that_key() {
    let config = AuthConfig::new().with_anonymous_key(Some(0));
    let mut c: AuthCache<User> = AuthCache::new(0);
    let l = c.lookup(&config, None, 1000);
    assert!(matches!(l, Lookup::Miss(0)));
    let id = c.complete(&config, 0, LoadOutcome::Found(user(0, "guest")), 1000);
    assert!(matches!(id, Identity::Authenticated(ref u) if *u == user(0, "guest")));
    let l = c.lookup(&config, None, 1001);
    assert!(matches!(l, Lookup::Hit(ref u) if *u == user(0, "guest")));
}

#[test]
fn miss_then_load_then_hit_within_ttl() {
    let config = AuthConfig::new().with_ttl(600);
    let mut c: AuthCache<User> = AuthCache::new(0);
    let l = c.lookup(&config, Some(42), 1000);
    assert!(matches!(l, Lookup::Miss(42)));
    let id = c.complete(&config, 42, LoadOutcome::Found(user(42, "uma")), 1000);
    assert!(matches!(id, Identity::Authenticated(ref u) if *u == user(42, "uma")));
    assert_eq!(c.get_at(42, 1599), Some(&user(42, "uma")));
    assert_eq!(c.get_at(42, 1600), None);
    // A second request within the TTL is answered by the cache.
    let l = c.lookup(&config, Some(42), 1300);
    assert!(matches!(l, Lookup::Hit(ref u) if *u == user(42, "uma")));
}

#[test]
fn expired_entry_is_reloaded_and_overwritten() {
    let config = AuthConfig::new().with_ttl(60);
    let mut c: AuthCache<User> = AuthCache::new(0);
    c.complete(&config, 7, LoadOutcome::Found(user(7, "old")), 0);
    let l = c.lookup(&config, Some(7), 60);
    assert!(matches!(l, Lookup::Miss(7)));
    let id = c.complete(&config, 7, LoadOutcome::Found(user(7, "new")), 60);
    assert!(matches!(id, Identity::Authenticated(ref u) if *u == user(7, "new")));
    assert_eq!(c.get_at(7, 119), Some(&user(7, "new")));
    assert_eq!(c.len(), 1);
}

#[test]
fn not_found_is_anonymous_and_leaves_no_entry() {
    let config = AuthConfig::new();
    let mut c: AuthCache<User> = AuthCache::new(0);
    let id = c.complete(&config, 13, LoadOutcome::NotFound, 0);
    assert!(matches!(id, Identity::Anonymous));
    assert!(!c.contains_key(13));
}

#[test]
fn not_found_after_expiry_removes_stale_entry() {
    let config = AuthConfig::new().with_ttl(10);
    let mut c: AuthCache<User> = AuthCache::new(0);
    c.complete(&config, 13, LoadOutcome::Found(user(13, "x")), 0);
    let id = c.complete(&config, 13, LoadOutcome::NotFound, 20);
    assert!(matches!(id, Identity::Anonymous));
    assert!(!c.contains_key(13));
}

#[test]
fn backend_failure_fails_request_by_default() {
    let config = AuthConfig::new();
    let mut c: AuthCache<User> = AuthCache::new(0);
    c.put_at(1, user(1, "kept"), 5, 0);
    let id = c.complete(&config, 2, LoadOutcome::Backend("connection refused".to_string()), 0);
    assert!(matches!(id, Identity::Failed(ref e) if e == "connection refused"));
    assert_eq!(c.len(), 1);
    assert!(!c.contains_key(2));
}

#[test]
fn backend_failure_degrades_when_configured() {
    let config = AuthConfig::new().with_backend_failure(BackendFailurePolicy::DegradeToAnonymous);
    let mut c: AuthCache<User> = AuthCache::new(0);
    let id = c.complete(&config, 2, LoadOutcome::Backend("timeout".to_string()), 0);
    assert!(matches!(id, Identity::Anonymous));
    assert!(c.is_empty());
}

#[test]
fn session_key_takes_precedence_over_anonymous_key() {
    let config = AuthConfig::new().with_anonymous_key(Some(0));
    let c: AuthCache<User> = AuthCache::new(0);
    assert!(matches!(c.lookup(&config, Some(5), 0), Lookup::Miss(5)));
}

#[test]
fn keys_are_never_approximately_matched() {
    let config = AuthConfig::new();
    let mut c: AuthCache<User> = AuthCache::new(0);
    c.put_at(1, user(1, "one"), 100, 0);
    assert!(matches!(c.lookup(&config, Some(2), 0), Lookup::Miss(2)));
}

#[test]
fn outcomes_without_expiry_accept_any_ttl() {
    let config = AuthConfig::new().with_ttl(i64::MAX);
    let mut c: AuthCache<User> = AuthCache::new(0);
    let id = c.complete(&config, 1, LoadOutcome::NotFound, 10);
    assert!(matches!(id, Identity::Anonymous));
    let id = c.complete(&config, 1, LoadOutcome::Backend("down".to_string()), 10);
    assert!(matches!(id, Identity::Failed(ref e) if e == "down"));
    assert!(c.is_empty());
}
