use vstd::prelude::*;
use crate::bridge::Config;
use crate::config::{fails_with, category_of, component_error, describes, id_of, items_of, metadata_for, ConfigError};
use crate::interlock::TimeoutTracker;
use crate::model::{Component, ComponentCategory, InverterType, Metadata};
use crate::value::Value;

verus! {

/// The component is an inverter whose type is battery: the interlock guards it.
pub open spec fn is_battery_inverter(c: Component) -> bool {
    c.category == ComponentCategory::Inverter && c.metadata == Some(
        Metadata::Inverter(InverterType::Battery),
    )
}

/// The record describes a battery inverter.
pub open spec fn record_is_battery_inverter(rec: Value) -> bool {
    category_of(rec) == Some(ComponentCategory::Inverter) && metadata_for(
        rec,
        ComponentCategory::Inverter,
    ) == Some(Metadata::Inverter(InverterType::Battery))
}

/// Every record of the list is a valid component.
pub open spec fn records_valid(recs: Value) -> bool {
    match items_of(recs) {
        Some(items) => forall|i: usize| i < items.len() ==> component_error(#[trigger] items[i as int], i) is None,
        None => false,
    }
}

/// The ids of the battery inverters among the records.
pub open spec fn battery_inverters(recs: Value) -> Set<u64> {
    match items_of(recs) {
        Some(items) => Set::new(
            |x: u64|
                exists|i: int|
                    0 <= i < items.len() && #[trigger] id_of(items[i]) == Some(x)
                        && record_is_battery_inverter(items[i]),
        ),
        None => Set::empty(),
    }
}

/// The ids of the battery inverters among `components`.
pub fn battery_inverter_ids(components: &Vec<Component>) -> (r: Vec<u64>)
    ensures
        forall|x: u64|
            r@.contains(x) <==> exists|i: int|
                0 <= i < components@.len() && components@[i].id == x && is_battery_inverter(
                    #[trigger] components@[i],
                ),
{
    let mut out: Vec<u64> = Vec::new();
    let mut i: usize = 0;
    while i < components.len()
        invariant
            i <= components@.len(),
            forall|x: u64|
                out@.contains(x) <==> exists|j: int|
                    0 <= j < i && components@[j].id == x && is_battery_inverter(
                        #[trigger] components@[j],
                    ),
        decreases components@.len() - i,
    {
        let c = &components[i];
        let hit = match c.category {
            ComponentCategory::Inverter => match c.metadata {
                Some(Metadata::Inverter(InverterType::Battery)) => true,
                _ => false,
            },
            _ => false,
        };
        let ghost out0 = out@;
        if hit {
            out.push(c.id);
        }
        proof {
            assert forall|x: u64|
                out@.contains(x) <==> exists|j: int|
                    0 <= j < i + 1 && components@[j].id == x && is_battery_inverter(
                        #[trigger] components@[j],
                    ) by {
                if hit {
                    assert(out@ == out0.push(components@[i as int].id));
                    assert(out@[out0.len() as int] == components@[i as int].id);
                    if out0.contains(x) {
                        let k = out0.index_of(x);
                        assert(out@[k] == x);
                    }
                    if out@.contains(x) && x != components@[i as int].id {
                        let k = out@.index_of(x);
                        assert(out0[k] == x);
                    }
                }
                if exists|j: int|
                    0 <= j < i + 1 && components@[j].id == x && is_battery_inverter(
                        #[trigger] components@[j],
                    ) {
                    let j = choose|j: int|
                        0 <= j < i + 1 && components@[j].id == x && is_battery_inverter(
                            #[trigger] components@[j],
                        );
                    if j < i {
                        assert(exists|j2: int|
                            0 <= j2 < i && components@[j2].id == x && is_battery_inverter(
                                #[trigger] components@[j2],
                            ));
                    }
                }
            }
        }
        i = i + 1;
    }
    out
}

/// The service state: the configuration generation and the safety interlock.
pub struct MicrogridServer {
    pub config: Config,
    pub timeout_tracker: TimeoutTracker,
}

impl MicrogridServer {
    /// Classifies the components once, guarding every battery inverter with a
    /// deadline `retention_millis` after each power command. Fails when the
    /// component list does not build.
    pub fn new(config: Config, retention_millis: u64) -> (r: Result<Self, ConfigError>)
        ensures
            match r {
                Ok(s) => {
                    &&& records_valid(config.component_records())
                    &&& s.config == config
                    &&& s.timeout_tracker.wf()
                    &&& s.timeout_tracker.registry() == Map::<u64, u64>::empty()
                    &&& s.timeout_tracker.guarded() == battery_inverters(config.component_records())
                    &&& s.timeout_tracker.retention() == retention_millis
                },
                Err(e) => !records_valid(config.component_records()) && fails_with(config.component_records(), e),
            },
    {
        let components = match config.components() {
            Ok(cs) => cs,
            Err(e) => {
                proof {
                    if let Some(items) = items_of(config.component_records()) {
                        let i = choose|i: usize|
                            i < items.len() && component_error(#[trigger] items[i as int], i) == Some(e)
                            && forall|j: usize| j < i ==> component_error(#[trigger] items[j as int], j) is None;
                        assert(component_error(items[i as int], i) is Some);
                    }
                }
                return Err(e);
            },
        };
        let ids = battery_inverter_ids(&components);
        let tracker = TimeoutTracker::new(ids, retention_millis);
        proof {
            let items = items_of(config.component_records())->Some_0;
            assert forall|x: u64| ids@.to_set().contains(x) <==> battery_inverters(config.component_records()).contains(x) by {
                if ids@.to_set().contains(x) {
                    assert(ids@.contains(x));
                    let i = choose|i: int|
                        0 <= i < components@.len() && components@[i].id == x && is_battery_inverter(
                            #[trigger] components@[i],
                        );
                    assert(describes(items[i], components@[i]));
                    assert(id_of(items[i]) == Some(x));
                }
                if battery_inverters(config.component_records()).contains(x) {
                    let i = choose|i: int|
                        0 <= i < items.len() && #[trigger] id_of(items[i]) == Some(x)
                            && record_is_battery_inverter(items[i]);
                    assert(describes(items[i], components@[i]));
                    assert(is_battery_inverter(components@[i]));
                    assert(ids@.contains(x));
                }
            }
            assert(ids@.to_set() =~= battery_inverters(config.component_records()));
        }
        Ok(MicrogridServer { config, timeout_tracker: tracker })
    }

    /// Records a power command for `id` at `now` with the interlock; the
    /// command itself goes to the script.
    pub fn note_power_command(&mut self, id: u64, now: u64)
        requires
            old(self).timeout_tracker.wf(),
        ensures
            final(self).config == old(self).config,
            final(self).timeout_tracker.wf(),
            final(self).timeout_tracker.registry() == crate::interlock::armed_after(
                old(self).timeout_tracker.registry(),
                old(self).timeout_tracker.guarded(),
                id,
                now,
                old(self).timeout_tracker.retention(),
            ),
            final(self).timeout_tracker.guarded() == old(self).timeout_tracker.guarded(),
            final(self).timeout_tracker.retention() == old(self).timeout_tracker.retention(),
    {
        self.timeout_tracker.add(id, now);
    }

    /// One sweep of the interlock at `now`: the ids that now need a zero
    /// power command, each once.
    pub fn sweep(&mut self, now: u64) -> (r: Vec<u64>)
        requires
            old(self).timeout_tracker.wf(),
        ensures
            final(self).config == old(self).config,
            final(self).timeout_tracker.wf(),
            final(self).timeout_tracker.registry() == crate::interlock::swept_at(
                old(self).timeout_tracker.registry(),
                now,
            ),
            r@.to_set() == crate::interlock::expired_at(old(self).timeout_tracker.registry(), now),
            r@.no_duplicates(),
            final(self).timeout_tracker.guarded() == old(self).timeout_tracker.guarded(),
            final(self).timeout_tracker.retention() == old(self).timeout_tracker.retention(),
    {
        self.timeout_tracker.remove_expired(now)
    }
}

} // verus!
