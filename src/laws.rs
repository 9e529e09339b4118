//! Laws of the cache, stated over the abstract maps that the contracts of
//! `AuthCache::get_at`, `put_at`, `invalidate`, `sweep`, `lookup` and
//! `complete` speak of.
use vstd::prelude::*;
use crate::cache::{CacheEntry, entry_valid, fresh_record, put_entry, swept};
use crate::config::BackendFailurePolicy;
use crate::resolver::{LoadOutcome, after_load, ends_anonymous, subject_key};

verus! {

/// After `put(k, u, t)` at time `now`, a lookup of `k` at any time `q` returns
/// `u` when `q < now + t`, and nothing when `q >= now + t`.
pub proof fn law_put_then_get<User>(m: Map<i64, CacheEntry<User>>, k: i64, u: User, t: int, now: int, q: int)
    requires
        i64::MIN <= now + t <= i64::MAX,
    ensures
        q < now + t ==> fresh_record(put_entry(m, k, u, t, now), k, q) == Some(u),
        q >= now + t ==> fresh_record(put_entry(m, k, u, t, now), k, q) is None,
{
}

/// After `invalidate(k)`, a lookup of `k` returns nothing, at any time and
/// whatever the cache held before.
pub proof fn law_invalidate_then_get<User>(m: Map<i64, CacheEntry<User>>, k: i64, q: int)
    ensures
        fresh_record(m.remove(k), k, q) is None,
{
}

/// Two puts for the same key leave the cache exactly as the second put alone
/// would: the last writer wins and nothing of the first remains.
pub proof fn law_last_put_wins<User>(
    m: Map<i64, CacheEntry<User>>,
    k: i64,
    u1: User,
    t1: int,
    n1: int,
    u2: User,
    t2: int,
    n2: int,
)
    ensures
        put_entry(put_entry(m, k, u1, t1, n1), k, u2, t2, n2) == put_entry(m, k, u2, t2, n2),
{
    assert(put_entry(put_entry(m, k, u1, t1, n1), k, u2, t2, n2) =~= put_entry(m, k, u2, t2, n2));
}

/// A put, an invalidation, or the completion of a backing lookup for one key
/// leaves what every other key yields unchanged, at every time.
pub proof fn law_other_keys_untouched<User>(
    m: Map<i64, CacheEntry<User>>,
    k: i64,
    other: i64,
    u: User,
    outcome: LoadOutcome<User>,
    t: int,
    now: int,
    q: int,
)
    requires
        k != other,
    ensures
        fresh_record(put_entry(m, k, u, t, now), other, q) == fresh_record(m, other, q),
        fresh_record(m.remove(k), other, q) == fresh_record(m, other, q),
        fresh_record(after_load(m, k, outcome, t, now), other, q) == fresh_record(m, other, q),
{
}

/// Sweeping at `now` changes no lookup made at `now` or later: stale entries
/// are already treated as absent.
pub proof fn law_sweep_unobservable<User>(m: Map<i64, CacheEntry<User>>, now: int, k: i64, q: int)
    requires
        now <= q,
    ensures
        fresh_record(swept(m, now), k, q) == fresh_record(m, k, q),
{
}

/// A visitor whose session holds no key resolves against the configured
/// anonymous key; with none configured, `lookup` answers `Anonymous` and no
/// key of the cache is consulted.
pub proof fn law_fresh_visitor(anonymous_key: Option<i64>)
    ensures
        subject_key(None, anonymous_key) == anonymous_key,
{
}

/// Once a backing lookup for `k` found `u` at `now`, the entry for `k` is
/// exactly `u` expiring at `now + ttl`, and every lookup of `k` before then is
/// a cache hit on `u`: no further backing lookup is due.
pub proof fn law_loaded_identity_is_cached<User>(
    m: Map<i64, CacheEntry<User>>,
    k: i64,
    u: User,
    ttl: int,
    now: int,
    q: int,
)
    requires
        i64::MIN <= now + ttl <= i64::MAX,
        q < now + ttl,
    ensures
        after_load(m, k, LoadOutcome::Found(u), ttl, now)[k] == (CacheEntry { user: u, expires_at: (now + ttl) as i64 }),
        fresh_record(after_load(m, k, LoadOutcome::Found(u), ttl, now), k, q) == Some(u),
{
}

/// An entry that has expired at `now` is a miss, and a backing lookup that
/// then finds `u` replaces it wholesale with `u` expiring at `now + ttl`.
pub proof fn law_stale_entry_is_reloaded<User>(m: Map<i64, CacheEntry<User>>, k: i64, u: User, ttl: int, now: int)
    requires
        i64::MIN <= now + ttl <= i64::MAX,
        m.contains_key(k),
        !entry_valid(m[k], now),
    ensures
        fresh_record(m, k, now) is None,
        after_load(m, k, LoadOutcome::Found(u), ttl, now)[k] == (CacheEntry { user: u, expires_at: (now + ttl) as i64 }),
{
}

/// A key that the backing store does not know resolves as anonymous under
/// every policy and leaves no entry for that key: negative results are never
/// cached.
pub proof fn law_not_found_caches_nothing<User>(
    m: Map<i64, CacheEntry<User>>,
    k: i64,
    ttl: int,
    now: int,
    policy: BackendFailurePolicy,
)
    ensures
        ends_anonymous(LoadOutcome::<User>::NotFound, policy),
        !after_load(m, k, LoadOutcome::<User>::NotFound, ttl, now).contains_key(k),
{
}

/// A backend failure leaves the cache exactly as it was.
pub proof fn law_backend_failure_keeps_cache<User>(m: Map<i64, CacheEntry<User>>, k: i64, e: String, ttl: int, now: int)
    ensures
        after_load(m, k, LoadOutcome::<User>::Backend(e), ttl, now) == m,
{
}

} // verus!
