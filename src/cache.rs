use std::collections::HashMap;
use vstd::prelude::*;

verus! {

broadcast use vstd::std_specs::hash::group_hash_axioms;

/// Lifetime given to every record written into the cache, in milliseconds.
pub const DEFAULT_TTL_MS: u64 = 60_000;

/// Period between two background sweeps of the cache, in milliseconds.
pub const SWEEP_PERIOD_MS: u64 = 900_000;

/// One value held by the cache, stamped with the time of the write that
/// produced it and with its lifetime.
#[derive(Clone)]
pub struct CachedRecord<T> {
    pub data: T,
    pub time_to_live_ms: u64,
    pub last_accessed_ms: u64,
}

/// Time elapsed between `last` and `now`; a clock that went backwards counts
/// as no time elapsed.
pub open spec fn elapsed(now: u64, last: u64) -> nat {
    if now >= last {
        (now - last) as nat
    } else {
        0
    }
}

impl<T> CachedRecord<T> {
    /// A record is dead once its lifetime has fully elapsed since its write.
    pub open spec fn expired_at(&self, now: u64) -> bool {
        elapsed(now, self.last_accessed_ms) >= self.time_to_live_ms
    }

    pub fn is_expired_at(&self, now_ms: u64) -> (r: bool)
        ensures
            r == self.expired_at(now_ms),
    {
        if now_ms >= self.last_accessed_ms {
            now_ms - self.last_accessed_ms >= self.time_to_live_ms
        } else {
            0 >= self.time_to_live_ms
        }
    }
}

/// The record that a write of `v` at time `now` leaves in the cache.
pub open spec fn fresh_record<T>(v: T, now: u64) -> CachedRecord<T> {
    CachedRecord { data: v, time_to_live_ms: DEFAULT_TTL_MS, last_accessed_ms: now }
}

/// The entries after a write of `v` under `k` at time `now`.
pub open spec fn inserted<T>(m: Map<u128, CachedRecord<T>>, k: u128, v: T, now: u64) -> Map<
    u128,
    CachedRecord<T>,
> {
    m.insert(k, fresh_record(v, now))
}

/// Whether a lookup of `k` at time `now` finds a live record.
pub open spec fn hit<T>(m: Map<u128, CachedRecord<T>>, k: u128, now: u64) -> bool {
    m.contains_key(k) && !m[k].expired_at(now)
}

/// What a lookup of `k` at time `now` hands back, up to cloning.
pub open spec fn looked_up<T>(m: Map<u128, CachedRecord<T>>, k: u128, now: u64) -> Option<
    CachedRecord<T>,
> {
    if hit(m, k, now) {
        Some(m[k])
    } else {
        None
    }
}

/// The entries after a lookup of `k` at time `now`: a dead record under `k`
/// is dropped, nothing else changes (a hit does not refresh the record).
pub open spec fn after_lookup<T>(m: Map<u128, CachedRecord<T>>, k: u128, now: u64) -> Map<
    u128,
    CachedRecord<T>,
> {
    if m.contains_key(k) && m[k].expired_at(now) {
        m.remove(k)
    } else {
        m
    }
}

/// The entries after a sweep at time `now`: exactly the live ones.
pub open spec fn swept<T>(m: Map<u128, CachedRecord<T>>, now: u64) -> Map<u128, CachedRecord<T>> {
    m.restrict(Set::new(|k: u128| hit(m, k, now)))
}

/// A write followed by a lookup within the lifetime finds the written value;
/// a lookup once the lifetime has elapsed misses and leaves no record behind,
/// so that a sweep after it has nothing left to drop under that key.
pub proof fn lemma_fresh_then_stale<T>(m: Map<u128, CachedRecord<T>>, k: u128, v: T, t0: u64, t: u64)
    ensures
        elapsed(t, t0) < DEFAULT_TTL_MS ==> looked_up(inserted(m, k, v, t0), k, t) == Some(
            fresh_record(v, t0),
        ),
        elapsed(t, t0) >= DEFAULT_TTL_MS ==> {
            let after = after_lookup(inserted(m, k, v, t0), k, t);
            &&& looked_up(inserted(m, k, v, t0), k, t) is None
            &&& !after.contains_key(k)
            &&& swept(after, t).contains_key(k) == after.contains_key(k)
        },
{
}

/// A record left alone is found dead by a lookup exactly when a sweep at the
/// same time drops it: both go by the same deadline.
pub proof fn lemma_lookup_agrees_with_sweep<T>(m: Map<u128, CachedRecord<T>>, k: u128, now: u64)
    requires
        m.contains_key(k),
    ensures
        looked_up(m, k, now) is None <==> !swept(m, now).contains_key(k),
        after_lookup(m, k, now).contains_key(k) <==> swept(m, now).contains_key(k),
{
}

/// A hit does not push the deadline forward: after a write at `t0` and a hit
/// half a lifetime later, a lookup one past the lifetime misses.
pub proof fn lemma_read_does_not_extend<T>(m: Map<u128, CachedRecord<T>>, k: u128, v: T, t0: u64)
    requires
        t0 + DEFAULT_TTL_MS + 1 <= u64::MAX,
    ensures
        ({
            let written = inserted(m, k, v, t0);
            let t1 = (t0 + DEFAULT_TTL_MS / 2) as u64;
            let t2 = (t0 + DEFAULT_TTL_MS + 1) as u64;
            &&& looked_up(written, k, t1) == Some(fresh_record(v, t0))
            &&& after_lookup(written, k, t1) == written
            &&& looked_up(after_lookup(written, k, t1), k, t2) is None
        }),
{
}

/// A time-to-live cache keyed by the integer form of an identifier. Records
/// expire a fixed time after the write that created them, reads do not extend
/// them; dead records are dropped by the lookup that meets them or by a sweep.
pub struct Cache<T> {
    records: HashMap<u128, CachedRecord<T>>,
}

impl<T> View for Cache<T> {
    type V = Map<u128, CachedRecord<T>>;

    closed spec fn view(&self) -> Map<u128, CachedRecord<T>> {
        self.records@
    }
}

impl<T: Clone> Cache<T> {
    /// An empty cache.
    pub fn new() -> (r: Self)
        ensures
            r@ == Map::<u128, CachedRecord<T>>::empty(),
    {
        Cache { records: HashMap::new() }
    }

    /// Looks up `key` at time `now_ms`. A live record is handed back as a
    /// clone and left untouched; a dead one is removed and nothing is returned.
    pub fn get_record(&mut self, key: u128, now_ms: u64) -> (r: Option<CachedRecord<T>>)
        ensures
            final(self)@ == after_lookup(old(self)@, key, now_ms),
            r is Some <==> hit(old(self)@, key, now_ms),
            r matches Some(rec) ==> {
                &&& rec.time_to_live_ms == old(self)@[key].time_to_live_ms
                &&& rec.last_accessed_ms == old(self)@[key].last_accessed_ms
                &&& cloned(old(self)@[key].data, rec.data)
            },
    {
        match self.records.get(&key) {
            None => {
                return None;
            },
            Some(record) => {
                if !record.is_expired_at(now_ms) {
                    return Some(
                        CachedRecord {
                            data: record.data.clone(),
                            time_to_live_ms: record.time_to_live_ms,
                            last_accessed_ms: record.last_accessed_ms,
                        },
                    );
                }
            },
        }
        self.records.remove(&key);
        None
    }

    /// Writes `new_data` under `key` at time `now_ms`, replacing any earlier
    /// record, with the default lifetime counted from now.
    pub fn update_record(&mut self, key: u128, new_data: T, now_ms: u64)
        ensures
            final(self)@ == inserted(old(self)@, key, new_data, now_ms),
    {
        let record = CachedRecord {
            data: new_data,
            time_to_live_ms: DEFAULT_TTL_MS,
            last_accessed_ms: now_ms,
        };
        self.records.insert(key, record);
    }

    /// Drops every record that is dead at time `now_ms`.
    pub fn cleanup_expired(&mut self, now_ms: u64)
        ensures
            final(self)@ == swept(old(self)@, now_ms),
    {
        let mut dead: Vec<u128> = Vec::new();
        for entry in it: self.records.iter()
            invariant
                forall|i: int|
                    0 <= i < dead.len() ==> #[trigger] self.records@.contains_key(dead[i])
                        && self.records@[dead[i]].expired_at(now_ms),
                forall|j: int|
                    0 <= j < it.index() && (#[trigger] it.seq()[j]).1.expired_at(now_ms)
                        ==> dead@.contains(*it.seq()[j].0),
        {
            let ghost prev = dead@;
            if entry.1.is_expired_at(now_ms) {
                dead.push(*entry.0);
                assert(dead@.last() == *entry.0);
            }
            assert(forall|x: u128| prev.contains(x) ==> #[trigger] dead@.contains(x)) by {
                assert(forall|i: int| 0 <= i < prev.len() ==> dead@[i] == #[trigger] prev[i]);
            }
        }
        proof {
            assert forall|k: u128| #[trigger] self.records@.contains_key(k) && self.records@[k].expired_at(now_ms) implies dead@.contains(k) by {
            }
        }
        let ghost before = self.records@;
        for i in 0..dead.len()
            invariant
                forall|j: int| 0 <= j < dead.len() ==> #[trigger] before.contains_key(dead[j]) && before[dead[j]].expired_at(now_ms),
                forall|k: u128| #[trigger] before.contains_key(k) && before[k].expired_at(now_ms) ==> dead@.contains(k),
                self.records@ == before.remove_keys(dead@.subrange(0, i as int).to_set()),
        {
            self.records.remove(&dead[i]);
            proof {
                assert(dead@.subrange(0, i + 1).to_set() == dead@.subrange(0, i as int).to_set().insert(dead[i as int])) by {
                    assert(dead@.subrange(0, i + 1) == dead@.subrange(0, i as int).push(dead[i as int]));
                    dead@.subrange(0, i as int).lemma_push_to_set_commute(dead[i as int]);
                }
                assert(self.records@ =~= before.remove_keys(dead@.subrange(0, i + 1).to_set()));
            }
        }
        proof {
            assert(dead@.subrange(0, dead.len() as int) == dead@);
            assert(self.records@ =~= swept(before, now_ms));
        }
    }
}

} // verus!
