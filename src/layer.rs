use vstd::prelude::*;
use crate::cache::{AuthCache, CacheEntry, SWEEP_INTERVAL};
use crate::clock::{CLOCK_LIMIT, now_unix};
use crate::config::AuthConfig;

verus! {

/// The moment a cache created at `now` first sweeps: `SWEEP_INTERVAL`
/// seconds later, or the last representable second when that does not fit.
pub open spec fn first_sweep(now: int) -> int {
    if now <= i64::MAX - SWEEP_INTERVAL {
        now + SWEEP_INTERVAL
    } else {
        i64::MAX as int
    }
}

/// Authentication middleware settings: the backing pool handed to identity
/// lookups, and the configuration. Each service built from it gets one cache,
/// shared by all requests that the service handles.
#[derive(Clone, Debug)]
pub struct AuthSessionLayer<Pool> {
    pub pool: Option<Pool>,
    pub config: AuthConfig,
}

impl<Pool> AuthSessionLayer<Pool> {
    /// A layer over an optional backing pool, with the default configuration.
    pub fn new(pool: Option<Pool>) -> (r: Self)
        ensures
            r.pool == pool,
            r.config.is_default(),
    {
        AuthSessionLayer { pool, config: AuthConfig::new() }
    }

    /// Replaces the configuration.
    pub fn with_config(self, config: AuthConfig) -> (r: Self)
        ensures
            r.pool == self.pool,
            r.config == config,
    {
        AuthSessionLayer { config, ..self }
    }

    /// The empty cache of a service built at `now`.
    pub fn cache_at<User>(&self, now: i64) -> (r: AuthCache<User>)
        ensures
            r@ == Map::<i64, CacheEntry<User>>::empty(),
            r.next_sweep_spec() == first_sweep(now as int),
    {
        let next: i64 = if now <= i64::MAX - SWEEP_INTERVAL {
            now + SWEEP_INTERVAL
        } else {
            i64::MAX
        };
        AuthCache::new(next)
    }

    /// The empty cache of a service built now (by the wall clock): its first
    /// sweep falls `SWEEP_INTERVAL` seconds after the clock's reading.
    pub fn cache<User>(&self) -> (r: AuthCache<User>)
        ensures
            r@ == Map::<i64, CacheEntry<User>>::empty(),
            SWEEP_INTERVAL - CLOCK_LIMIT < r.next_sweep_spec() < SWEEP_INTERVAL + CLOCK_LIMIT,
    {
        let now: i64 = now_unix();
        self.cache_at(now)
    }
}

} // verus!
