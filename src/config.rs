use vstd::prelude::*;
use crate::model::{
    battery_type_named, category_named, ev_charger_type_named, inverter_type_named,
    parse_battery_type, parse_category, parse_ev_charger_type, parse_inverter_type, Component,
    BatteryType, ComponentCategory, Connection, Metadata, upper_of,
};
use crate::value::{field, int_of, symbol_of, text_of, Value};

verus! {

/// Why a configuration query could not be answered.
#[derive(Clone, Copy, PartialEq, Eq, Structural, Debug)]
pub enum ConfigError {
    /// The evaluated expression is not a list.
    NotAList,
    /// A component record has no integer `id`; the record's position is given.
    MissingId(usize),
    /// The component's `category` is absent or names no known category.
    InvalidCategory(u64),
    /// A connection entry is not a pair of integer ids; its position is given.
    InvalidConnection(usize),
    /// No component record of the current generation has this id.
    ComponentNotFound(u64),
    /// The component's `stream` lacks a non-negative `interval` or a callable `data`.
    InvalidStream(u64),
}

/// The text of the `name` field, empty when it is absent or not a string.
pub open spec fn name_text(rec: Value) -> Seq<char> {
    match text_of(field(rec, "name"@)) {
        Some(s) => s,
        None => Seq::empty(),
    }
}

/// Metadata for `cat`, read from the `type` symbol; `None` when that field is
/// absent, not a symbol or unrecognised, or the category carries no metadata.
pub open spec fn metadata_for(rec: Value, cat: ComponentCategory) -> Option<Metadata> {
    match symbol_of(field(rec, "type"@)) {
        None => None,
        Some(t) => match cat {
            ComponentCategory::Inverter => match inverter_type_named(upper_of(t)) {
                Some(x) => Some(Metadata::Inverter(x)),
                None => None,
            },
            ComponentCategory::Battery => match battery_type_named(upper_of(t)) {
                Some(x) => Some(Metadata::Battery(x)),
                None => None,
            },
            ComponentCategory::EvCharger => match ev_charger_type_named(upper_of(t)) {
                Some(x) => Some(Metadata::EvCharger(x)),
                None => None,
            },
            _ => None,
        },
    }
}

/// The category that the record's `category` symbol names; a string names none.
pub open spec fn category_of(rec: Value) -> Option<ComponentCategory> {
    match symbol_of(field(rec, "category"@)) {
        Some(s) => category_named(upper_of(s)),
        None => None,
    }
}

/// The record's `id` field, as a component id.
pub open spec fn id_of(rec: Value) -> Option<u64> {
    match int_of(field(rec, "id"@)) {
        Some(n) => Some(n as u64),
        None => None,
    }
}

/// The hard failure of a component record at position `pos`, if any.
pub open spec fn component_error(rec: Value, pos: usize) -> Option<ConfigError> {
    match id_of(rec) {
        None => Some(ConfigError::MissingId(pos)),
        Some(id) => match category_of(rec) {
            None => Some(ConfigError::InvalidCategory(id)),
            Some(_) => None,
        },
    }
}

/// `c` is the component that a valid record describes.
pub open spec fn describes(rec: Value, c: Component) -> bool {
    &&& id_of(rec) == Some(c.id)
    &&& c.name@ == name_text(rec)
    &&& category_of(rec) == Some(c.category)
    &&& c.metadata == metadata_for(rec, c.category)
}

/// Builds a component from one record; `pos` is the record's position, for errors.
pub fn component_from_record(rec: &Value, pos: usize) -> (r: Result<Component, ConfigError>)
    ensures
        match r {
            Ok(c) => component_error(*rec, pos) is None && describes(*rec, c),
            Err(e) => component_error(*rec, pos) == Some(e),
        },
{
    let id = match rec.int_field("id") {
        Some(n) => n,
        None => return Err(ConfigError::MissingId(pos)),
    };
    let category = match rec.symbol_field("category") {
        Some(s) => parse_category(s),
        None => None,
    };
    let category = match category {
        Some(c) => c,
        None => return Err(ConfigError::InvalidCategory(id as u64)),
    };
    let name = match rec.text_field("name") {
        Some(s) => s.to_owned(),
        None => String::new(),
    };
    let metadata = match rec.symbol_field("type") {
        None => None,
        Some(t) => match category {
            ComponentCategory::Inverter => match parse_inverter_type(t) {
                Some(x) => Some(Metadata::Inverter(x)),
                None => None,
            },
            ComponentCategory::Battery => match parse_battery_type(t) {
                Some(x) => Some(Metadata::Battery(x)),
                None => None,
            },
            ComponentCategory::EvCharger => match parse_ev_charger_type(t) {
                Some(x) => Some(Metadata::EvCharger(x)),
                None => None,
            },
            _ => None,
        },
    };
    proof {
        assert(name@ == name_text(*rec));
    }
    Ok(Component { id: id as u64, name, category, metadata })
}

/// The items of a list value.
pub open spec fn items_of(v: Value) -> Option<Seq<Value>> {
    match v {
        Value::List(items) => Some(items@),
        _ => None,
    }
}

/// Building the component list fails with `e`: the list is no list, or `e`
/// is the error of its first invalid record.
pub open spec fn fails_with(recs: Value, e: ConfigError) -> bool {
    match items_of(recs) {
        None => e == ConfigError::NotAList,
        Some(items) => exists|i: usize|
            i < items.len()
            && component_error(#[trigger] items[i as int], i) == Some(e)
            && forall|j: usize| j < i ==> component_error(#[trigger] items[j as int], j) is None,
    }
}

/// Builds every component of the list; any invalid record fails the whole call
/// with the error of the first one.
pub fn components_from_records(recs: &Value) -> (r: Result<Vec<Component>, ConfigError>)
    ensures
        match items_of(*recs) {
            None => r == Err::<Vec<Component>, ConfigError>(ConfigError::NotAList),
            Some(items) => match r {
                Ok(cs) => {
                    &&& cs@.len() == items.len()
                    &&& forall|i: usize| i < items.len() ==> component_error(#[trigger] items[i as int], i) is None
                    &&& forall|i: int| 0 <= i < items.len() ==> describes(items[i], #[trigger] cs@[i])
                },
                Err(e) => exists|i: usize|
                    i < items.len()
                    && component_error(#[trigger] items[i as int], i) == Some(e)
                    && forall|j: usize| j < i ==> component_error(#[trigger] items[j as int], j) is None,
            },
        },
{
    match recs {
        Value::List(items) => {
            assert(items_of(*recs) == Some(items@));
            components_from_items(items)
        },
        _ => Err(ConfigError::NotAList),
    }
}

fn components_from_items(items: &Vec<Value>) -> (r: Result<Vec<Component>, ConfigError>)
    ensures
        match r {
            Ok(cs) => {
                &&& cs@.len() == items@.len()
                &&& forall|i: usize| i < items@.len() ==> component_error(#[trigger] items@[i as int], i) is None
                &&& forall|i: int| 0 <= i < items@.len() ==> describes(items@[i], #[trigger] cs@[i])
            },
            Err(e) => exists|i: usize|
                i < items@.len()
                && component_error(#[trigger] items@[i as int], i) == Some(e)
                && forall|j: usize| j < i ==> component_error(#[trigger] items@[j as int], j) is None,
        },
{
    let mut out: Vec<Component> = Vec::new();
    let mut i: usize = 0;
    while i < items.len()
        invariant
            i <= items@.len(),
            out@.len() == i,
            forall|j: usize| j < i ==> component_error(#[trigger] items@[j as int], j) is None,
            forall|j: int| 0 <= j < i ==> describes(items@[j], #[trigger] out@[j]),
        decreases items@.len() - i,
    {
        match component_from_record(&items[i], i) {
            Ok(c) => out.push(c),
            Err(e) => {
                assert(component_error(items@[i as int], i) == Some(e));
                assert(forall|j: usize| j < i ==> component_error(#[trigger] items@[j as int], j) is None);
                return Err(e);
            },
        }
        i = i + 1;
    }
    Ok(out)
}

/// The connection a list entry describes: a pair of integer ids.
pub open spec fn connection_of(v: Value) -> Option<Connection> {
    match v {
        Value::List(pair) => if pair@.len() == 2 {
            match (pair@[0], pair@[1]) {
                (Value::Int(a), Value::Int(b)) => Some(Connection { start: a as u64, end: b as u64 }),
                _ => None,
            }
        } else {
            None
        },
        _ => None,
    }
}

pub fn connection_from_pair(v: &Value) -> (r: Option<Connection>)
    ensures
        r == connection_of(*v),
{
    match v {
        Value::List(pair) => {
            if pair.len() != 2 {
                return None;
            }
            match (&pair[0], &pair[1]) {
                (Value::Int(a), Value::Int(b)) => Some(Connection { start: *a as u64, end: *b as u64 }),
                _ => None,
            }
        },
        _ => None,
    }
}

/// Builds every connection of the list, failing on the first malformed entry.
pub fn connections_from_pairs(pairs: &Value) -> (r: Result<Vec<Connection>, ConfigError>)
    ensures
        match items_of(*pairs) {
            None => r == Err::<Vec<Connection>, ConfigError>(ConfigError::NotAList),
            Some(items) => match r {
                Ok(cs) => {
                    &&& cs@.len() == items.len()
                    &&& forall|i: int| 0 <= i < items.len() ==> connection_of(items[i]) == Some(#[trigger] cs@[i])
                },
                Err(e) => exists|i: usize|
                    i < items.len()
                    && e == ConfigError::InvalidConnection(i)
                    && connection_of(#[trigger] items[i as int]) is None
                    && forall|j: int| 0 <= j < i ==> connection_of(items[j]) is Some,
            },
        },
{
    match pairs {
        Value::List(items) => {
            assert(items_of(*pairs) == Some(items@));
            connections_from_items(items)
        },
        _ => Err(ConfigError::NotAList),
    }
}

fn connections_from_items(items: &Vec<Value>) -> (r: Result<Vec<Connection>, ConfigError>)
    ensures
        match r {
            Ok(cs) => {
                &&& cs@.len() == items@.len()
                &&& forall|i: int| 0 <= i < items@.len() ==> connection_of(items@[i]) == Some(#[trigger] cs@[i])
            },
            Err(e) => exists|i: usize|
                i < items@.len()
                && e == ConfigError::InvalidConnection(i)
                && connection_of(#[trigger] items@[i as int]) is None
                && forall|j: int| 0 <= j < i ==> connection_of(items@[j]) is Some,
        },
{
    let mut out: Vec<Connection> = Vec::new();
    let mut i: usize = 0;
    while i < items.len()
        invariant
            i <= items@.len(),
            out@.len() == i,
            forall|j: int| 0 <= j < i ==> connection_of(items@[j]) == Some(#[trigger] out@[j]),
        decreases items@.len() - i,
    {
        match connection_from_pair(&items[i]) {
            Some(c) => out.push(c),
            None => {
                assert(forall|j: int| 0 <= j < i ==> connection_of(items@[j]) == Some(out@[j]));
                assert(connection_of(items@[i as int]) is None);
                return Err(ConfigError::InvalidConnection(i));
            },
        }
        i = i + 1;
    }
    Ok(out)
}

/// A record whose `category` symbol names the battery category and whose
/// `type` symbol names the lithium-ion type lists as a battery component with
/// the record's id and lithium-ion metadata.
pub proof fn lemma_battery_record_lists_as_battery(rec: Value, pos: usize, c: Component)
    requires
        component_error(rec, pos) is None,
        describes(rec, c),
        category_of(rec) == Some(ComponentCategory::Battery),
        match symbol_of(field(rec, "type"@)) {
            Some(t) => battery_type_named(upper_of(t)) == Some(BatteryType::LiIon),
            None => false,
        },
    ensures
        id_of(rec) == Some(c.id),
        c.category == ComponentCategory::Battery,
        c.metadata == Some(Metadata::Battery(BatteryType::LiIon)),
{
}

} // verus!
