use std::collections::HashMap;
use vstd::prelude::*;

verus! {

broadcast use vstd::std_specs::hash::group_hash_axioms;

/// `a + b`, held at `u64::MAX`.
pub open spec fn sat_add(a: u64, b: u64) -> u64 {
    if a + b > u64::MAX {
        u64::MAX
    } else {
        (a + b) as u64
    }
}

/// The registry after a power command for `id` at time `now`: a guarded
/// component is armed, or refreshed, to expire `retention` later.
pub open spec fn armed_after(
    registry: Map<u64, u64>,
    guarded: Set<u64>,
    id: u64,
    now: u64,
    retention: u64,
) -> Map<u64, u64> {
    if guarded.contains(id) {
        registry.insert(id, sat_add(now, retention))
    } else {
        registry
    }
}

/// The ids whose deadline has passed at `now`.
pub open spec fn expired_at(registry: Map<u64, u64>, now: u64) -> Set<u64> {
    Set::new(|k: u64| registry.contains_key(k) && registry[k] <= now)
}

/// The registry after a sweep at `now`: every expired entry is gone.
pub open spec fn swept_at(registry: Map<u64, u64>, now: u64) -> Map<u64, u64> {
    registry.remove_keys(expired_at(registry, now))
}

/// `k` occurs among the first `n` items of `s`.
pub open spec fn among(s: Seq<u64>, n: int, k: u64) -> bool {
    exists|j: int| 0 <= j < n && s[j] == k
}

/// The safety-timeout registry: component id to expiry deadline, in milliseconds.
pub struct TimeoutTracker {
    guarded: Vec<u64>,
    deadlines: HashMap<u64, u64>,
    retention_millis: u64,
}

impl TimeoutTracker {
    pub closed spec fn registry(&self) -> Map<u64, u64> {
        self.deadlines@
    }

    /// The components that the interlock guards.
    pub closed spec fn guarded(&self) -> Set<u64> {
        self.guarded@.to_set()
    }

    pub closed spec fn retention(&self) -> u64 {
        self.retention_millis
    }

    /// Only guarded components are ever armed.
    pub closed spec fn wf(&self) -> bool {
        forall|k: u64| self.deadlines@.contains_key(k) ==> self.guarded@.contains(k)
    }

    pub fn new(guarded: Vec<u64>, retention_millis: u64) -> (r: Self)
        ensures
            r.wf(),
            r.registry() == Map::<u64, u64>::empty(),
            r.guarded() == guarded@.to_set(),
            r.retention() == retention_millis,
    {
        let r = TimeoutTracker { guarded, deadlines: HashMap::new(), retention_millis };
        assert(r.deadlines@ =~= Map::<u64, u64>::empty());
        r
    }

    pub fn is_guarded(&self, id: u64) -> (r: bool)
        ensures
            r == self.guarded().contains(id),
    {
        let mut i: usize = 0;
        while i < self.guarded.len()
            invariant
                i <= self.guarded@.len(),
                forall|j: int| 0 <= j < i ==> self.guarded@[j] != id,
            decreases self.guarded@.len() - i,
        {
            if self.guarded[i] == id {
                assert(self.guarded@.to_set().contains(self.guarded@[i as int]));
                return true;
            }
            i = i + 1;
        }
        false
    }

    /// The deadline of `id`, when it is armed.
    pub fn deadline(&self, id: u64) -> (r: Option<u64>)
        ensures
            r == (if self.registry().contains_key(id) {
                Some(self.registry()[id])
            } else {
                None::<u64>
            }),
    {
        match self.deadlines.get(&id) {
            Some(d) => Some(*d),
            None => None,
        }
    }

    /// Records a power command for `id` at `now`: a guarded component is armed
    /// or refreshed; any other leaves the registry as it was.
    pub fn add(&mut self, id: u64, now: u64)
        requires
            old(self).wf(),
        ensures
            final(self).wf(),
            final(self).registry() == armed_after(
                old(self).registry(),
                old(self).guarded(),
                id,
                now,
                old(self).retention(),
            ),
            final(self).guarded() == old(self).guarded(),
            final(self).retention() == old(self).retention(),
    {
        if self.is_guarded(id) {
            let deadline = now.saturating_add(self.retention_millis);
            self.deadlines.insert(id, deadline);
            proof {
                assert(self.guarded@.to_set().contains(id));
                assert(self.guarded@.contains(id));
            }
        }
    }

    /// Removes every entry whose deadline is at or before `now` and returns
    /// their ids, each once.
    pub fn remove_expired(&mut self, now: u64) -> (r: Vec<u64>)
        requires
            old(self).wf(),
        ensures
            final(self).wf(),
            final(self).registry() == swept_at(old(self).registry(), now),
            r@.to_set() == expired_at(old(self).registry(), now),
            r@.no_duplicates(),
            final(self).guarded() == old(self).guarded(),
            final(self).retention() == old(self).retention(),
    {
        let ghost start = self.deadlines@;
        let mut out: Vec<u64> = Vec::new();
        let mut i: usize = 0;
        while i < self.guarded.len()
            invariant
                i <= self.guarded@.len(),
                self.guarded@ == old(self).guarded@,
                self.retention_millis == old(self).retention_millis,
                forall|k: u64| start.contains_key(k) ==> self.guarded@.contains(k),
                forall|k: u64|
                    #![trigger self.deadlines@.contains_key(k)]
                    self.deadlines@.contains_key(k) <==> (start.contains_key(k) && !(start[k] <= now
                        && among(self.guarded@, i as int, k))),
                forall|k: u64| self.deadlines@.contains_key(k) ==> self.deadlines@[k] == start[k],
                forall|k: u64|
                    #![trigger out@.contains(k)]
                    out@.contains(k) <==> (start.contains_key(k) && start[k] <= now && among(
                        self.guarded@,
                        i as int,
                        k,
                    )),
                out@.no_duplicates(),
            decreases self.guarded@.len() - i,
        {
            let id = self.guarded[i];
            let hit = match self.deadlines.get(&id) {
                Some(d) => *d <= now,
                None => false,
            };
            proof {
                if hit {
                    assert(start.contains_key(id) && start[id] <= now);
                } else if start.contains_key(id) && start[id] <= now {
                    assert(!self.deadlines@.contains_key(id));
                    assert(among(self.guarded@, i as int, id));
                    assert(out@.contains(id));
                }
            }
            let ghost out0 = out@;
            if hit {
                self.deadlines.remove(&id);
                proof {
                    assert(!out@.contains(id));
                }
                out.push(id);
            }
            proof {
                assert forall|k: u64|
                    #[trigger] among(self.guarded@, i + 1, k) <==> (among(self.guarded@, i as int, k)
                        || k == id) by {
                    if k == id {
                        assert(self.guarded@[i as int] == k);
                    }
                }
                assert forall|k: u64|
                    #[trigger] out@.contains(k) <==> (start.contains_key(k) && start[k] <= now
                        && among(self.guarded@, i + 1, k)) by {
                    if hit {
                        assert(out@ == out0.push(id));
                        if out0.contains(k) {
                            let j = out0.index_of(k);
                            assert(out@[j] == k);
                        }
                        if out@.contains(k) && k != id {
                            let j = out@.index_of(k);
                            assert(out0[j] == k);
                        }
                        assert(out@[out0.len() as int] == id);
                    }
                }
            }
            i = i + 1;
        }
        proof {
            assert(self.deadlines@ =~= swept_at(start, now));
            assert forall|k: u64| out@.to_set().contains(k) <==> expired_at(start, now).contains(k) by {
                if start.contains_key(k) {
                    let j = self.guarded@.index_of(k);
                    assert(self.guarded@[j] == k);
                    assert(among(self.guarded@, self.guarded@.len() as int, k));
                }
            }
            assert(out@.to_set() =~= expired_at(start, now));
        }
        out
    }
}

/// A guarded component armed at `t0` expires once `retention` has passed: a
/// sweep at or after `t0 + retention` reports it and drops it from the
/// registry, and a sweep before that keeps it armed.
pub proof fn lemma_armed_entry_expires(
    registry: Map<u64, u64>,
    guarded: Set<u64>,
    id: u64,
    t0: u64,
    retention: u64,
    now: u64,
)
    requires
        guarded.contains(id),
        t0 + retention <= u64::MAX,
    ensures
        now >= t0 + retention ==> expired_at(armed_after(registry, guarded, id, t0, retention), now).contains(id)
            && !swept_at(armed_after(registry, guarded, id, t0, retention), now).contains_key(id),
        now < t0 + retention ==> !expired_at(armed_after(registry, guarded, id, t0, retention), now).contains(id)
            && swept_at(armed_after(registry, guarded, id, t0, retention), now).contains_key(id)
            && swept_at(armed_after(registry, guarded, id, t0, retention), now)[id] == t0 + retention,
{
}

/// A refresh at `t1` moves the deadline to `t1 + retention`: a sweep before
/// then keeps the component armed, even past the first deadline.
pub proof fn lemma_refresh_postpones_expiry(
    registry: Map<u64, u64>,
    guarded: Set<u64>,
    id: u64,
    t0: u64,
    t1: u64,
    retention: u64,
    now: u64,
)
    requires
        guarded.contains(id),
        t0 <= t1,
        t1 + retention <= u64::MAX,
        now < t1 + retention,
    ensures
        ({
            let refreshed = armed_after(
                armed_after(registry, guarded, id, t0, retention),
                guarded,
                id,
                t1,
                retention,
            );
            &&& !expired_at(refreshed, now).contains(id)
            &&& swept_at(refreshed, now).contains_key(id)
            &&& swept_at(refreshed, now)[id] == t1 + retention
        }),
{
}

/// A command for a component that is not guarded never touches the registry.
pub proof fn lemma_unguarded_untouched(
    registry: Map<u64, u64>,
    guarded: Set<u64>,
    id: u64,
    now: u64,
    retention: u64,
)
    requires
        !guarded.contains(id),
    ensures
        armed_after(registry, guarded, id, now, retention) == registry,
{
}

/// After a sweep no expired entry remains armed: an expiry and a live
/// deadline never coexist for one id.
pub proof fn lemma_sweep_clears_expired(registry: Map<u64, u64>, now: u64, id: u64)
    requires
        expired_at(registry, now).contains(id),
    ensures
        !swept_at(registry, now).contains_key(id),
        forall|k: u64| #[trigger] swept_at(registry, now).contains_key(k) ==> registry[k] > now,
{
}

} // verus!
