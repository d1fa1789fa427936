use std::collections::HashMap;
use vstd::prelude::*;
use crate::config::{
    components_from_records, connections_from_pairs, describes, component_error, connection_of,
    id_of, items_of, ConfigError,
};
use crate::model::{Component, Connection};
use crate::value::{field, int_of, text_of, Value};

verus! {

broadcast use vstd::std_specs::hash::group_hash_axioms;

/// How to synthesize a component's telemetry: the script callable that builds
/// a sample, and the time between samples.
#[derive(Clone, Copy, PartialEq, Eq, Structural, Debug)]
pub struct StreamDescriptor {
    pub data_fn: u64,
    pub interval_millis: u64,
}

/// The descriptor in the `stream` field of the record of component `id`.
pub open spec fn descriptor_in(rec: Value, id: u64) -> Result<StreamDescriptor, ConfigError> {
    match field(rec, "stream"@) {
        Some(st) => match (int_of(field(st, "interval"@)), field(st, "data"@)) {
            (Some(n), Some(Value::Callable(h))) => if n >= 0 {
                Ok(StreamDescriptor { data_fn: h, interval_millis: n as u64 })
            } else {
                Err(ConfigError::InvalidStream(id))
            },
            _ => Err(ConfigError::InvalidStream(id)),
        },
        None => Err(ConfigError::InvalidStream(id)),
    }
}

/// Position `i` holds the first record of component `id`.
pub open spec fn first_with_id(items: Seq<Value>, id: u64, i: int) -> bool {
    &&& 0 <= i < items.len()
    &&& id_of(items[i]) == Some(id)
    &&& forall|j: int| 0 <= j < i ==> id_of(items[j]) != Some(id)
}

/// `r` is what resolving component `id` against the records `recs` gives:
/// the descriptor of its first record, or `ComponentNotFound`.
pub open spec fn resolves(recs: Value, id: u64, r: Result<StreamDescriptor, ConfigError>) -> bool {
    match items_of(recs) {
        None => r == Err::<StreamDescriptor, ConfigError>(ConfigError::NotAList),
        Some(items) => {
            &&& (forall|i: int| 0 <= i < items.len() ==> id_of(items[i]) != Some(id)) ==> r
                == Err::<StreamDescriptor, ConfigError>(ConfigError::ComponentNotFound(id))
            &&& forall|i: int| #[trigger] first_with_id(items, id, i) ==> r == descriptor_in(items[i], id)
        },
    }
}

pub fn descriptor_from_record(rec: &Value, id: u64) -> (r: Result<StreamDescriptor, ConfigError>)
    ensures
        r == descriptor_in(*rec, id),
{
    let st = match rec.get_field("stream") {
        Some(st) => st,
        None => return Err(ConfigError::InvalidStream(id)),
    };
    let interval = st.int_field("interval");
    match (interval, st.get_field("data")) {
        (Some(n), Some(Value::Callable(h))) => if n >= 0 {
            Ok(StreamDescriptor { data_fn: *h, interval_millis: n as u64 })
        } else {
            Err(ConfigError::InvalidStream(id))
        },
        _ => Err(ConfigError::InvalidStream(id)),
    }
}

/// Resolves the stream descriptor of component `id` from the component records.
pub fn resolve_descriptor(recs: &Value, id: u64) -> (r: Result<StreamDescriptor, ConfigError>)
    ensures
        resolves(*recs, id, r),
{
    match recs {
        Value::List(items) => {
            assert(items_of(*recs) == Some(items@));
            let mut i: usize = 0;
            while i < items.len()
                invariant
                    i <= items@.len(),
                    items_of(*recs) == Some(items@),
                    forall|j: int| 0 <= j < i ==> id_of(items@[j]) != Some(id),
                decreases items@.len() - i,
            {
                let hit = match items[i].int_field("id") {
                    Some(n) => n as u64 == id,
                    None => false,
                };
                if hit {
                    let r = descriptor_from_record(&items[i], id);
                    proof {
                        assert(id_of(items@[i as int]) == Some(id));
                        assert(first_with_id(items@, id, i as int));
                        assert forall|k: int| #[trigger] first_with_id(items@, id, k) implies k == i by {
                            if k < i {
                            } else if k > i {
                                assert(id_of(items@[i as int]) == Some(id));
                            }
                        }
                    }
                    return r;
                }
                i = i + 1;
            }
            assert forall|k: int| #[trigger] first_with_id(items@, id, k) implies false by {}
            Err(ConfigError::ComponentNotFound(id))
        },
        _ => Err(ConfigError::NotAList),
    }
}

/// One generation of configuration: the records the script gave when it was
/// loaded, and the stream descriptors resolved from them so far.
pub struct Config {
    components: Value,
    connections: Value,
    socket_addr: Value,
    streams: HashMap<u64, StreamDescriptor>,
}

impl Config {
    pub closed spec fn component_records(&self) -> Value {
        self.components
    }

    pub closed spec fn connection_pairs(&self) -> Value {
        self.connections
    }

    pub closed spec fn socket_value(&self) -> Value {
        self.socket_addr
    }

    /// The stream descriptors resolved in this generation.
    pub closed spec fn cache(&self) -> Map<u64, StreamDescriptor> {
        self.streams@
    }

    /// Starts a generation from what the script evaluated to, with nothing resolved.
    pub fn new(components: Value, connections: Value, socket_addr: Value) -> (r: Self)
        ensures
            r.component_records() == components,
            r.connection_pairs() == connections,
            r.socket_value() == socket_addr,
            r.cache() == Map::<u64, StreamDescriptor>::empty(),
    {
        let r = Config { components, connections, socket_addr, streams: HashMap::new() };
        assert(r.streams@ =~= Map::<u64, StreamDescriptor>::empty());
        r
    }

    /// Replaces the whole generation at once: records, and an empty cache.
    pub fn reload(&mut self, components: Value, connections: Value, socket_addr: Value)
        ensures
            final(self).component_records() == components,
            final(self).connection_pairs() == connections,
            final(self).socket_value() == socket_addr,
            final(self).cache() == Map::<u64, StreamDescriptor>::empty(),
    {
        *self = Config::new(components, connections, socket_addr);
    }

    /// The descriptor of `id` resolved earlier in this generation, if any.
    pub fn cached_descriptor(&self, id: u64) -> (r: Option<StreamDescriptor>)
        ensures
            r == (if self.cache().contains_key(id) {
                Some(self.cache()[id])
            } else {
                None::<StreamDescriptor>
            }),
    {
        match self.streams.get(&id) {
            Some(d) => Some(*d),
            None => None,
        }
    }

    /// The address the server listens on, when the script gives it as a string.
    pub fn socket_addr(&self) -> (r: Option<&str>)
        ensures
            match r {
                Some(s) => text_of(Some(self.socket_value())) == Some(s@),
                None => text_of(Some(self.socket_value())) is None,
            },
    {
        match &self.socket_addr {
            Value::Str(s) => Some(s.as_str()),
            _ => None,
        }
    }

    /// Every component of this generation; one invalid record fails the call.
    pub fn components(&self) -> (r: Result<Vec<Component>, ConfigError>)
        ensures
            match items_of(self.component_records()) {
                None => r == Err::<Vec<Component>, ConfigError>(ConfigError::NotAList),
                Some(items) => match r {
                    Ok(cs) => {
                        &&& cs@.len() == items.len()
                        &&& forall|i: usize| i < items.len() ==> component_error(#[trigger] items[i as int], i) is None
                        &&& forall|i: int| 0 <= i < items.len() ==> describes(items[i], #[trigger] cs@[i])
                    },
                    Err(e) => exists|i: usize|
                        i < items.len()
                        && component_error(#[trigger] items[i as int], i) == Some(e)
                        && forall|j: usize| j < i ==> component_error(#[trigger] items[j as int], j) is None,
                },
            },
    {
        components_from_records(&self.components)
    }

    /// Every connection of this generation.
    pub fn connections(&self) -> (r: Result<Vec<Connection>, ConfigError>)
        ensures
            match items_of(self.connection_pairs()) {
                None => r == Err::<Vec<Connection>, ConfigError>(ConfigError::NotAList),
                Some(items) => match r {
                    Ok(cs) => {
                        &&& cs@.len() == items.len()
                        &&& forall|i: int| 0 <= i < items.len() ==> connection_of(items[i]) == Some(#[trigger] cs@[i])
                    },
                    Err(e) => exists|i: usize|
                        i < items.len()
                        && e == ConfigError::InvalidConnection(i)
                        && connection_of(#[trigger] items[i as int]) is None
                        && forall|j: int| 0 <= j < i ==> connection_of(items[j]) is Some,
                },
            },
    {
        connections_from_pairs(&self.connections)
    }

    /// The stream descriptor of component `id`: from the cache when it was
    /// resolved before in this generation, else resolved from the records and
    /// cached. A failed resolution leaves the cache as it was.
    pub fn stream_descriptor(&mut self, id: u64) -> (r: Result<StreamDescriptor, ConfigError>)
        ensures
            looked_up(*old(self), id, r, *final(self)),
    {
        match self.streams.get(&id) {
            Some(d) => return Ok(*d),
            None => {},
        }
        let r = resolve_descriptor(&self.components, id);
        match r {
            Ok(d) => {
                self.streams.insert(id, d);
            },
            Err(_) => {},
        }
        r
    }
}

/// What a lookup of component `id` from generation `before` returns, and the
/// generation it leaves behind.
pub open spec fn looked_up(
    before: Config,
    id: u64,
    r: Result<StreamDescriptor, ConfigError>,
    after: Config,
) -> bool {
    &&& after.component_records() == before.component_records()
    &&& after.connection_pairs() == before.connection_pairs()
    &&& after.socket_value() == before.socket_value()
    &&& if before.cache().contains_key(id) {
        r == Ok::<StreamDescriptor, ConfigError>(before.cache()[id]) && after.cache() == before.cache()
    } else {
        &&& resolves(before.component_records(), id, r)
        &&& match r {
            Ok(d) => after.cache() == before.cache().insert(id, d),
            Err(_) => after.cache() == before.cache(),
        }
    }
}

/// A lookup issued after a reload sees only the new records: whatever the old
/// generation had cached, the result is the new records' resolution.
pub proof fn lemma_lookup_after_reload_sees_new_records(
    reloaded: Config,
    records: Value,
    id: u64,
    r: Result<StreamDescriptor, ConfigError>,
    after: Config,
)
    requires
        reloaded.component_records() == records,
        reloaded.cache() == Map::<u64, StreamDescriptor>::empty(),
        looked_up(reloaded, id, r, after),
    ensures
        resolves(records, id, r),
{
}

/// A lookup completes against the generation it started on: its result is
/// fixed by that generation alone, and it leaves that generation's records
/// in place.
pub proof fn lemma_lookup_stays_in_generation(
    g: Config,
    id: u64,
    r1: Result<StreamDescriptor, ConfigError>,
    a1: Config,
    r2: Result<StreamDescriptor, ConfigError>,
    a2: Config,
)
    requires
        looked_up(g, id, r1, a1),
        looked_up(g, id, r2, a2),
    ensures
        r1 == r2,
        a1.component_records() == g.component_records(),
        a1.cache() == a2.cache(),
{
    if !g.cache().contains_key(id) {
        lemma_resolution_unique(g.component_records(), id, r1, r2);
    }
}

/// Resolution is a function of the records and the id.
pub proof fn lemma_resolution_unique(
    recs: Value,
    id: u64,
    r1: Result<StreamDescriptor, ConfigError>,
    r2: Result<StreamDescriptor, ConfigError>,
)
    requires
        resolves(recs, id, r1),
        resolves(recs, id, r2),
    ensures
        r1 == r2,
{
    match items_of(recs) {
        None => {},
        Some(items) => {
            if exists|i: int| 0 <= i < items.len() && id_of(items[i]) == Some(id) {
                let i = choose|i: int| 0 <= i < items.len() && id_of(items[i]) == Some(id);
                lemma_first_exists(items, id, i);
            }
        },
    }
}

/// Where some record has id `id`, a first one does.
pub proof fn lemma_first_exists(items: Seq<Value>, id: u64, i: int)
    requires
        0 <= i < items.len(),
        id_of(items[i]) == Some(id),
    ensures
        exists|k: int| #[trigger] first_with_id(items, id, k),
    decreases i,
{
    if forall|j: int| 0 <= j < i ==> id_of(items[j]) != Some(id) {
        assert(first_with_id(items, id, i));
    } else {
        let j = choose|j: int| 0 <= j < i && id_of(items[j]) == Some(id);
        lemma_first_exists(items, id, j);
    }
}

/// After a failed lookup the cache is exactly as before.
pub proof fn lemma_failed_lookup_keeps_cache(
    before: Config,
    id: u64,
    e: ConfigError,
    after: Config,
)
    requires
        looked_up(before, id, Err(e), after),
    ensures
        after.cache() == before.cache(),
{
}

} // verus!
