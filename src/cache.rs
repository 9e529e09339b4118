use vstd::prelude::*;
use std::collections::HashMap;
use vstd::std_specs::iter::IteratorSpec;
use crate::clock::{CLOCK_LIMIT, now_unix};

verus! {

broadcast use vstd::std_specs::hash::group_hash_axioms;

/// A cached identity record together with the moment it stops being valid.
pub struct CacheEntry<User> {
    pub user: User,
    pub expires_at: i64,
}

/// An entry is valid at `now` exactly when `now < expires_at`.
pub open spec fn entry_valid<User>(e: CacheEntry<User>, now: int) -> bool {
    now < e.expires_at
}

/// What a lookup of `key` at time `now` yields in the abstract map `m`:
/// the record of a present, unexpired entry, and nothing otherwise.
pub open spec fn fresh_record<User>(m: Map<i64, CacheEntry<User>>, key: i64, now: int) -> Option<User> {
    if m.contains_key(key) && entry_valid(m[key], now) {
        Some(m[key].user)
    } else {
        None
    }
}

/// The map after storing `user` under `key` at time `now` for `ttl` seconds.
pub open spec fn put_entry<User>(
    m: Map<i64, CacheEntry<User>>,
    key: i64,
    user: User,
    ttl: int,
    now: int,
) -> Map<i64, CacheEntry<User>> {
    m.insert(key, CacheEntry { user, expires_at: (now + ttl) as i64 })
}

/// The map after removing every entry that is no longer valid at `now`.
pub open spec fn swept<User>(m: Map<i64, CacheEntry<User>>, now: int) -> Map<i64, CacheEntry<User>> {
    m.restrict(m.dom().filter(|k: i64| entry_valid(m[k], now)))
}

/// Seconds between two housekeeping sweeps: one hour.
pub const SWEEP_INTERVAL: i64 = 3600;

/// A time-bounded map from identity key to cached identity record.
pub struct AuthCache<User> {
    entries: HashMap<i64, CacheEntry<User>>,
    next_sweep: i64,
}

impl<User> View for AuthCache<User> {
    type V = Map<i64, CacheEntry<User>>;

    closed spec fn view(&self) -> Map<i64, CacheEntry<User>> {
        self.entries@
    }
}

impl<User> AuthCache<User> {
    /// The moment from which `sweep_if_due` will next evict stale entries.
    pub closed spec fn next_sweep_spec(&self) -> i64 {
        self.next_sweep
    }

    /// An empty cache whose first housekeeping sweep is due at `next_sweep`.
    pub fn new(next_sweep: i64) -> (r: Self)
        ensures
            r@ == Map::<i64, CacheEntry<User>>::empty(),
            r.next_sweep_spec() == next_sweep,
    {
        AuthCache { entries: HashMap::new(), next_sweep }
    }

    /// The moment from which `sweep_if_due` will next evict stale entries.
    pub fn next_sweep(&self) -> (r: i64)
        ensures
            r == self.next_sweep_spec(),
    {
        self.next_sweep
    }

    /// Whether an entry, valid or stale, is stored for `key`.
    pub fn contains_key(&self, key: i64) -> (r: bool)
        ensures
            r == self@.contains_key(key),
    {
        self.entries.contains_key(&key)
    }

    /// The number of stored entries, valid or stale.
    pub fn len(&self) -> (r: usize)
        ensures
            r == self@.len(),
    {
        self.entries.len()
    }

    /// Whether no entry is stored.
    pub fn is_empty(&self) -> (r: bool)
        ensures
            r == (self@.len() == 0),
    {
        self.entries.is_empty()
    }

    /// The record cached under `key`, if its entry is still valid at `now`.
    pub fn get_at(&self, key: i64, now: i64) -> (r: Option<&User>)
        ensures
            match r {
                Some(u) => fresh_record(self@, key, now as int) == Some(*u),
                None => fresh_record(self@, key, now as int) is None,
            },
    {
        match self.entries.get(&key) {
            Some(e) => {
                if now < e.expires_at {
                    Some(&e.user)
                } else {
                    None
                }
            },
            None => None,
        }
    }

    /// Stores `user` under `key`, valid until `now + ttl`; any previous entry
    /// for `key` is replaced.
    pub fn put_at(&mut self, key: i64, user: User, ttl: i64, now: i64)
        requires
            i64::MIN <= now + ttl <= i64::MAX,
        ensures
            final(self)@ == put_entry(old(self)@, key, user, ttl as int, now as int),
            final(self).next_sweep_spec() == old(self).next_sweep_spec(),
    {
        let expires_at: i64 = now + ttl;
        self.entries.insert(key, CacheEntry { user, expires_at });
    }

    /// Removes the entry for `key`, if there is one.
    pub fn invalidate(&mut self, key: i64)
        ensures
            final(self)@ == old(self)@.remove(key),
            final(self).next_sweep_spec() == old(self).next_sweep_spec(),
    {
        self.entries.remove(&key);
    }
    /// Removes every entry that is no longer valid at `now`.
    pub fn sweep(&mut self, now: i64)
        ensures
            final(self)@ == swept(old(self)@, now as int),
            final(self).next_sweep_spec() == old(self).next_sweep_spec(),
    {
        let ghost m0 = self@;
        let ghost sweep0 = self.next_sweep;
        let mut stale: Vec<i64> = Vec::new();
        let keys = self.entries.keys();
        assert(keys.remaining().unref().to_set() == m0.dom());
        for k in it: keys
            invariant
                it.seq().unref().to_set() == m0.dom(),
                m0 == self@,
                forall|i: int| 0 <= i < stale.len() ==> #[trigger] m0.contains_key(stale@[i]),
                forall|i: int| 0 <= i < stale.len() ==> !entry_valid(m0[#[trigger] stale@[i]], now as int),
                forall|j: int| 0 <= j < it.index() ==> (m0.contains_key(#[trigger] it.seq().unref()[j])
                    && !entry_valid(m0[it.seq().unref()[j]], now as int) ==> stale@.contains(it.seq().unref()[j])),
        {
            let ghost before = stale@;
            let ghost idx = it.index();
            proof {
                assert(it.seq().unref()[idx] == *k);
                assert(it.seq().unref().to_set().contains(*k));
            }
            match self.entries.get(k) {
                Some(e) => {
                    if e.expires_at <= now {
                        stale.push(*k);
                    }
                },
                None => {},
            }
            proof {
                assert forall|x: i64| before.contains(x) implies stale@.contains(x) by {
                    let n = choose|n: int| 0 <= n < before.len() && before[n] == x;
                    assert(stale@[n] == x);
                }
                if stale@.len() > before.len() {
                    assert(stale@[before.len() as int] == *k);
                }
            }
        }
        let mut i: usize = 0;
        while i < stale.len()
            invariant
                0 <= i <= stale.len(),
                self.next_sweep == sweep0,
                forall|j: int| 0 <= j < stale.len() ==> #[trigger] m0.contains_key(stale@[j]),
                forall|j: int| 0 <= j < stale.len() ==> !entry_valid(m0[#[trigger] stale@[j]], now as int),
                forall|k: i64| m0.contains_key(k) && !entry_valid(m0[k], now as int) ==> #[trigger] stale@.contains(k),
                forall|k: i64| #[trigger] self@.contains_key(k) <==> m0.contains_key(k) && !stale@.take(i as int).contains(k),
                forall|k: i64| #[trigger] self@.contains_key(k) ==> self@[k] == m0[k],
            decreases stale.len() - i,
        {
            let k: i64 = stale[i];
            let ghost prev = stale@.take(i as int);
            let ghost before = self@;
            self.entries.remove(&k);
            proof {
                assert(stale@.take(i as int + 1) =~= prev.push(k));
                assert forall|x: i64| #[trigger] self@.contains_key(x) <==> m0.contains_key(x)
                    && !stale@.take(i as int + 1).contains(x) by {
                    assert(prev.push(k)[prev.len() as int] == k);
                    if prev.push(k).contains(x) && x != k {
                        let n = choose|n: int| 0 <= n < prev.push(k).len() && prev.push(k)[n] == x;
                        assert(prev[n] == x);
                    }
                    if prev.contains(x) {
                        let n = choose|n: int| 0 <= n < prev.len() && prev[n] == x;
                        assert(prev.push(k)[n] == x);
                    }
                }
            }
            i = i + 1;
        }
        proof {
            assert(stale@.take(stale.len() as int) =~= stale@);
            assert forall|k: i64| #[trigger] self@.contains_key(k) <==> swept(m0, now as int).contains_key(k) by {
                if m0.contains_key(k) && !entry_valid(m0[k], now as int) {
                    assert(stale@.contains(k));
                }
                if stale@.contains(k) {
                    let n = choose|n: int| 0 <= n < stale.len() && stale@[n] == k;
                    assert(m0.contains_key(stale@[n]));
                }
            }
            assert(self@ =~= swept(m0, now as int));
        }
    }
    /// The record cached under `key`, if its entry is still valid now (by
    /// the wall clock).
    pub fn get(&self, key: i64) -> (r: Option<&User>)
        ensures
            exists|now: int| -CLOCK_LIMIT < now < CLOCK_LIMIT && match r {
                Some(u) => fresh_record(self@, key, now) == Some(*u),
                None => fresh_record(self@, key, now) is None,
            },
    {
        let now: i64 = now_unix();
        assert(-CLOCK_LIMIT < now && now < CLOCK_LIMIT);
        self.get_at(key, now)
    }

    /// Stores `user` under `key`, valid for `ttl` seconds from now (by the
    /// wall clock). Returns `false`, leaving the cache unchanged, when the
    /// expiry does not fit in an `i64`, which no TTL within
    /// `i64::MAX - CLOCK_LIMIT` seconds of zero can cause.
    pub fn put(&mut self, key: i64, user: User, ttl: i64) -> (r: bool)
        ensures
            -(i64::MAX - CLOCK_LIMIT) <= ttl <= i64::MAX - CLOCK_LIMIT ==> r,
            r ==> exists|now: int| -CLOCK_LIMIT < now < CLOCK_LIMIT && final(self)@ == put_entry(old(self)@, key, user, ttl as int, now),
            !r ==> final(self)@ == old(self)@,
            final(self).next_sweep_spec() == old(self).next_sweep_spec(),
    {
        let now: i64 = now_unix();
        if ttl >= 0 && now > i64::MAX - ttl || ttl < 0 && now < i64::MIN - ttl {
            false
        } else {
            self.put_at(key, user, ttl, now);
            true
        }
    }

    /// Sweeps stale entries when the scheduled moment has come, and then
    /// schedules the next sweep `SWEEP_INTERVAL` seconds later (or at the
    /// last representable second, when that does not fit).
    pub fn sweep_if_due(&mut self, now: i64)
        ensures
            now < old(self).next_sweep_spec() ==> final(self)@ == old(self)@
                && final(self).next_sweep_spec() == old(self).next_sweep_spec(),
            now >= old(self).next_sweep_spec() ==> final(self)@ == swept(old(self)@, now as int)
                && final(self).next_sweep_spec() == (if now <= i64::MAX - SWEEP_INTERVAL {
                    now + SWEEP_INTERVAL
                } else {
                    i64::MAX as int
                }),
    {
        if now >= self.next_sweep {
            self.sweep(now);
            self.next_sweep = if now <= i64::MAX - SWEEP_INTERVAL {
                now + SWEEP_INTERVAL
            } else {
                i64::MAX
            };
        }
    }
}

} // verus!
