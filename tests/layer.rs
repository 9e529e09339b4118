use axum_session_auth::cache::SWEEP_INTERVAL;
use axum_session_auth::config::{DEFAULT_SESSION_ID, DEFAULT_TTL};
use axum_session_auth::{AuthCache, AuthConfig, AuthSessionLayer, BackendFailurePolicy};

#[test]
fn default_config() {
    let c = AuthConfig::default();
    assert_eq!(c.session_id, "user_auth_session_id");
    assert_eq!(c.session_id, DEFAULT_SESSION_ID);
    assert_eq!(c.ttl, 3600);
    assert_eq!(c.ttl, DEFAULT_TTL);
    assert_eq!(c.anonymous_key, None);
    assert_eq!(c.backend_failure, BackendFailurePolicy::FailRequest);
}

#[test]
fn config_builders() {
    let c = AuthConfig::new()
        .with_session_id("sid")
        .with_ttl(30)
        .with_anonymous_key(Some(-1))
        .with_backend_failure(BackendFailurePolicy::DegradeToAnonymous);
    assert_eq!(c.session_id, "sid");
    assert_eq!(c.ttl, 30);
    assert_eq!(c.anonymous_key, Some(-1));
    assert_eq!(c.backend_failure, BackendFailurePolicy::DegradeToAnonymous);
}

#[test]
fn layer_new_and_with_config() {
    let layer: AuthSessionLayer<String> = AuthSessionLayer::new(Some("pool".to_string()));
    assert_eq!(layer.pool, Some("pool".to_string()));
    assert_eq!(layer.config.ttl, 3600);
    let layer = layer.with_config(AuthConfig::new().with_ttl(5));
    assert_eq!(layer.config.ttl, 5);
    assert_eq!(layer.pool, Some("pool".to_string()));
    let none: AuthSessionLayer<String> = AuthSessionLayer::new(None);
    assert_eq!(none.pool, None);
}

#[test]
fn layer_builds_empty_cache_with_first_sweep_an_hour_later() {
    let layer: AuthSessionLayer<()> = AuthSessionLayer::new(None);
    let c: AuthCache<u64> = layer.cache_at(1000);
    assert!(c.is_empty());
    assert_eq!(c.next_sweep(), 1000 + SWEEP_INTERVAL);
    assert_eq!(c.next_sweep(), 4600);
    let late: AuthCache<u64> = layer.cache_at(i64::MAX - 10);
    assert_eq!(late.next_sweep(), i64::MAX);
}

#[test]
fn layer_builds_cache_by_wall_clock() {
    let layer: AuthSessionLayer<()> = AuthSessionLayer::new(None);
    let c: AuthCache<u64> = layer.cache();
    assert!(c.is_empty());
    // The current time is well after the Unix epoch.
    assert!(c.next_sweep() > SWEEP_INTERVAL);
}
