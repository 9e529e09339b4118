use vstd::prelude::*;

verus! {

/// Session field under which the current identity key is stored by default.
pub const DEFAULT_SESSION_ID: &'static str = "user_auth_session_id";

/// Default lifetime of a cache entry, in seconds: one hour.
pub const DEFAULT_TTL: i64 = 3600;

/// What resolution does when the backing store fails to answer.
#[derive(Clone, Copy, Debug, PartialEq, Eq, Structural)]
pub enum BackendFailurePolicy {
    /// The request fails.
    FailRequest,
    /// The caller is treated as anonymous.
    DegradeToAnonymous,
}

/// Immutable settings of the authentication layer.
#[derive(Clone, Debug)]
pub struct AuthConfig {
    /// Name of the session field that holds the identity key.
    pub session_id: String,
    /// How long, in seconds, a cached identity stays valid.
    pub ttl: i64,
    /// Identity key used when the session holds none; `None` leaves such a
    /// visitor anonymous without any lookup.
    pub anonymous_key: Option<i64>,
    /// What to do when a backing lookup fails.
    pub backend_failure: BackendFailurePolicy,
}

impl AuthConfig {
    /// The default settings: the default session field, a one-hour TTL, no
    /// anonymous key, and failing the request on a backend failure.
    pub open spec fn is_default(&self) -> bool {
        &&& self.session_id@ == DEFAULT_SESSION_ID@
        &&& self.ttl == DEFAULT_TTL
        &&& self.anonymous_key is None
        &&& self.backend_failure == BackendFailurePolicy::FailRequest
    }

    /// The default settings (see `is_default`).
    pub fn new() -> (r: Self)
        ensures
            r.is_default(),
    {
        AuthConfig {
            session_id: DEFAULT_SESSION_ID.to_owned(),
            ttl: DEFAULT_TTL,
            anonymous_key: None,
            backend_failure: BackendFailurePolicy::FailRequest,
        }
    }

    /// Sets the session field that holds the identity key.
    pub fn with_session_id(self, session_id: &str) -> (r: Self)
        ensures
            r.session_id@ == session_id@,
            r.ttl == self.ttl,
            r.anonymous_key == self.anonymous_key,
            r.backend_failure == self.backend_failure,
    {
        AuthConfig { session_id: session_id.to_owned(), ..self }
    }

    /// Sets the lifetime, in seconds, of a cached identity.
    pub fn with_ttl(self, ttl: i64) -> (r: Self)
        ensures
            r.session_id@ == self.session_id@,
            r.ttl == ttl,
            r.anonymous_key == self.anonymous_key,
            r.backend_failure == self.backend_failure,
    {
        AuthConfig { ttl, ..self }
    }

    /// Sets the identity key used when the session holds none.
    pub fn with_anonymous_key(self, anonymous_key: Option<i64>) -> (r: Self)
        ensures
            r.session_id@ == self.session_id@,
            r.ttl == self.ttl,
            r.anonymous_key == anonymous_key,
            r.backend_failure == self.backend_failure,
    {
        AuthConfig { anonymous_key, ..self }
    }

    /// Sets what happens when a backing lookup fails.
    pub fn with_backend_failure(self, backend_failure: BackendFailurePolicy) -> (r: Self)
        ensures
            r.session_id@ == self.session_id@,
            r.ttl == self.ttl,
            r.anonymous_key == self.anonymous_key,
            r.backend_failure == backend_failure,
    {
        AuthConfig { backend_failure, ..self }
    }
}

impl Default for AuthConfig {
    fn default() -> (r: Self)
        ensures
            r.is_default(),
    {
        AuthConfig::new()
    }
}

} // verus!
