use vstd::prelude::*;
use crate::cache::{AuthCache, CacheEntry, fresh_record, put_entry};
use crate::config::{AuthConfig, BackendFailurePolicy};

verus! {

/// The first step of resolving a request's identity.
pub enum Lookup<User> {
    /// No identity key applies: the caller is anonymous and no lookup is due.
    Anonymous,
    /// A valid cache entry answered; no backing lookup is due.
    Hit(User),
    /// The cache has no valid entry for this key: the backing store must be
    /// asked, and its answer handed to `AuthCache::complete`.
    Miss(i64),
}

/// What the backing store answered for an identity key.
pub enum LoadOutcome<User> {
    /// The key maps to this identity.
    Found(User),
    /// The key maps to no identity.
    NotFound,
    /// The store could not be reached or failed, with its error message.
    Backend(String),
}

/// The identity attached to a request.
pub enum Identity<User> {
    Authenticated(User),
    Anonymous,
    /// Resolution failed on a backend error, whose message this carries, and
    /// the policy fails the request.
    Failed(String),
}

/// The identity key a request resolves against: the session's own key, or
/// else the configured anonymous key.
pub open spec fn subject_key(session_key: Option<i64>, anonymous_key: Option<i64>) -> Option<i64> {
    match session_key {
        Some(k) => Some(k),
        None => anonymous_key,
    }
}

/// The cache map after the backing store answered `outcome` for `key`.
pub open spec fn after_load<User>(
    m: Map<i64, CacheEntry<User>>,
    key: i64,
    outcome: LoadOutcome<User>,
    ttl: int,
    now: int,
) -> Map<i64, CacheEntry<User>> {
    match outcome {
        LoadOutcome::Found(u) => put_entry(m, key, u, ttl, now),
        LoadOutcome::NotFound => m.remove(key),
        LoadOutcome::Backend(_) => m,
    }
}

/// Whether the resolution ends without an identity once the backing store
/// answered `outcome` (as opposed to failing or authenticating).
pub open spec fn ends_anonymous<User>(outcome: LoadOutcome<User>, policy: BackendFailurePolicy) -> bool {
    match outcome {
        LoadOutcome::Found(_) => false,
        LoadOutcome::NotFound => true,
        LoadOutcome::Backend(_) => policy == BackendFailurePolicy::DegradeToAnonymous,
    }
}

impl<User: Clone> AuthCache<User> {
    /// Decides, from the session's identity key (if any), whether the request
    /// is anonymous, answered by the cache at `now`, or needs a backing lookup.
    pub fn lookup(&self, config: &AuthConfig, session_key: Option<i64>, now: i64) -> (r: Lookup<User>)
        ensures
            match subject_key(session_key, config.anonymous_key) {
                None => r is Anonymous,
                Some(k) => match fresh_record(self@, k, now as int) {
                    Some(u) => r matches Lookup::Hit(c) && cloned(u, c),
                    None => r == Lookup::<User>::Miss(k),
                },
            },
    {
        let key: i64 = match session_key {
            Some(k) => k,
            None => match config.anonymous_key {
                Some(a) => a,
                None => {
                    return Lookup::Anonymous;
                },
            },
        };
        match self.get_at(key, now) {
            Some(u) => Lookup::Hit(u.clone()),
            None => Lookup::Miss(key),
        }
    }

    /// Finishes a resolution that missed the cache for `key`, given what the
    /// backing store answered at `now`. A found identity is cached for the
    /// configured TTL and attached; an unknown key is attached as anonymous
    /// and leaves no entry behind; a backend failure follows the configured
    /// policy and leaves the cache as it was.
    pub fn complete(&mut self, config: &AuthConfig, key: i64, outcome: LoadOutcome<User>, now: i64)
        -> (r: Identity<User>)
        requires
            outcome is Found ==> i64::MIN <= now + config.ttl <= i64::MAX,
        ensures
            final(self)@ == after_load(old(self)@, key, outcome, config.ttl as int, now as int),
            final(self).next_sweep_spec() == old(self).next_sweep_spec(),
            match outcome {
                LoadOutcome::Found(u) => r matches Identity::Authenticated(c) && cloned(u, c),
                _ => ends_anonymous(outcome, config.backend_failure) <==> r is Anonymous,
            },
            outcome is Backend && config.backend_failure == BackendFailurePolicy::FailRequest
                <==> r is Failed,
            r matches Identity::Failed(e) ==> outcome == LoadOutcome::<User>::Backend(e),
    {
        match outcome {
            LoadOutcome::Found(u) => {
                let c = u.clone();
                self.put_at(key, u, config.ttl, now);
                Identity::Authenticated(c)
            },
            LoadOutcome::NotFound => {
                self.invalidate(key);
                Identity::Anonymous
            },
            LoadOutcome::Backend(e) => match config.backend_failure {
                BackendFailurePolicy::FailRequest => Identity::Failed(e),
                BackendFailurePolicy::DegradeToAnonymous => Identity::Anonymous,
            },
        }
    }
}

} // verus!
