use vstd::prelude::*;
use crate::value::str_eq;

verus! {

/// The upper-case form of a text, character by character, by Unicode's tables.
pub uninterp spec fn upper_of(s: Seq<char>) -> Seq<char>;

/// Relies on `str::to_uppercase`: the result is the upper-case mapping of `s`
/// and depends on `s` alone.
#[verifier::external_body]
pub(crate) fn to_upper(s: &str) -> (r: String)
    ensures
        r@ == upper_of(s@),
{
    s.to_uppercase()
}

#[derive(Clone, Copy, PartialEq, Eq, Structural, Debug)]
pub enum ComponentCategory {
    Unspecified,
    Inverter,
    Battery,
    EvCharger,
    Meter,
    Sensor,
}

#[derive(Clone, Copy, PartialEq, Eq, Structural, Debug)]
pub enum BatteryType {
    Unspecified,
    LiIon,
    NaIon,
}

#[derive(Clone, Copy, PartialEq, Eq, Structural, Debug)]
pub enum InverterType {
    Unspecified,
    Battery,
    Solar,
    Hybrid,
}

#[derive(Clone, Copy, PartialEq, Eq, Structural, Debug)]
pub enum EvChargerType {
    Unspecified,
    Ac,
    Dc,
    Hybrid,
}

/// Category-specific description of a component; its variant follows the category.
#[derive(Clone, Copy, PartialEq, Eq, Structural, Debug)]
pub enum Metadata {
    Inverter(InverterType),
    Battery(BatteryType),
    EvCharger(EvChargerType),
}

#[derive(Clone, Debug)]
pub struct Component {
    pub id: u64,
    pub name: String,
    pub category: ComponentCategory,
    pub metadata: Option<Metadata>,
}

/// A directed edge of the topology graph.
#[derive(Clone, Copy, PartialEq, Eq, Structural, Debug)]
pub struct Connection {
    pub start: u64,
    pub end: u64,
}

/// Category whose upper-cased name is `u`: the enum member `COMPONENT_CATEGORY_` followed by `u`.
pub open spec fn category_named(u: Seq<char>) -> Option<ComponentCategory> {
    if u == "UNSPECIFIED"@ {
        Some(ComponentCategory::Unspecified)
    } else if u == "INVERTER"@ {
        Some(ComponentCategory::Inverter)
    } else if u == "BATTERY"@ {
        Some(ComponentCategory::Battery)
    } else if u == "EV_CHARGER"@ {
        Some(ComponentCategory::EvCharger)
    } else if u == "METER"@ {
        Some(ComponentCategory::Meter)
    } else if u == "SENSOR"@ {
        Some(ComponentCategory::Sensor)
    } else {
        None
    }
}

pub fn parse_category(s: &str) -> (r: Option<ComponentCategory>)
    ensures
        r == category_named(upper_of(s@)),
{
    let u = to_upper(s);
    category_from_upper(u.as_str())
}

pub fn category_from_upper(u: &str) -> (r: Option<ComponentCategory>)
    ensures
        r == category_named(u@),
{
    if str_eq(u, "UNSPECIFIED") {
        Some(ComponentCategory::Unspecified)
    } else if str_eq(u, "INVERTER") {
        Some(ComponentCategory::Inverter)
    } else if str_eq(u, "BATTERY") {
        Some(ComponentCategory::Battery)
    } else if str_eq(u, "EV_CHARGER") {
        Some(ComponentCategory::EvCharger)
    } else if str_eq(u, "METER") {
        Some(ComponentCategory::Meter)
    } else if str_eq(u, "SENSOR") {
        Some(ComponentCategory::Sensor)
    } else {
        None
    }
}

/// Battery type whose upper-cased name is `u`: the enum member `BATTERY_TYPE_` followed by `u`.
pub open spec fn battery_type_named(u: Seq<char>) -> Option<BatteryType> {
    if u == "UNSPECIFIED"@ {
        Some(BatteryType::Unspecified)
    } else if u == "LI_ION"@ {
        Some(BatteryType::LiIon)
    } else if u == "NA_ION"@ {
        Some(BatteryType::NaIon)
    } else {
        None
    }
}

pub fn parse_battery_type(s: &str) -> (r: Option<BatteryType>)
    ensures
        r == battery_type_named(upper_of(s@)),
{
    let u = to_upper(s);
    battery_type_from_upper(u.as_str())
}

pub fn battery_type_from_upper(u: &str) -> (r: Option<BatteryType>)
    ensures
        r == battery_type_named(u@),
{
    if str_eq(u, "UNSPECIFIED") {
        Some(BatteryType::Unspecified)
    } else if str_eq(u, "LI_ION") {
        Some(BatteryType::LiIon)
    } else if str_eq(u, "NA_ION") {
        Some(BatteryType::NaIon)
    } else {
        None
    }
}

/// Inverter type whose upper-cased name is `u`: the enum member `INVERTER_TYPE_` followed by `u`.
pub open spec fn inverter_type_named(u: Seq<char>) -> Option<InverterType> {
    if u == "UNSPECIFIED"@ {
        Some(InverterType::Unspecified)
    } else if u == "BATTERY"@ {
        Some(InverterType::Battery)
    } else if u == "SOLAR"@ {
        Some(InverterType::Solar)
    } else if u == "HYBRID"@ {
        Some(InverterType::Hybrid)
    } else {
        None
    }
}

pub fn parse_inverter_type(s: &str) -> (r: Option<InverterType>)
    ensures
        r == inverter_type_named(upper_of(s@)),
{
    let u = to_upper(s);
    inverter_type_from_upper(u.as_str())
}

pub fn inverter_type_from_upper(u: &str) -> (r: Option<InverterType>)
    ensures
        r == inverter_type_named(u@),
{
    if str_eq(u, "UNSPECIFIED") {
        Some(InverterType::Unspecified)
    } else if str_eq(u, "BATTERY") {
        Some(InverterType::Battery)
    } else if str_eq(u, "SOLAR") {
        Some(InverterType::Solar)
    } else if str_eq(u, "HYBRID") {
        Some(InverterType::Hybrid)
    } else {
        None
    }
}

/// EV charger type whose upper-cased name is `u`: the enum member `EV_CHARGER_TYPE_` followed by `u`.
pub open spec fn ev_charger_type_named(u: Seq<char>) -> Option<EvChargerType> {
    if u == "UNSPECIFIED"@ {
        Some(EvChargerType::Unspecified)
    } else if u == "AC"@ {
        Some(EvChargerType::Ac)
    } else if u == "DC"@ {
        Some(EvChargerType::Dc)
    } else if u == "HYBRID"@ {
        Some(EvChargerType::Hybrid)
    } else {
        None
    }
}

pub fn parse_ev_charger_type(s: &str) -> (r: Option<EvChargerType>)
    ensures
        r == ev_charger_type_named(upper_of(s@)),
{
    let u = to_upper(s);
    ev_charger_type_from_upper(u.as_str())
}

pub fn ev_charger_type_from_upper(u: &str) -> (r: Option<EvChargerType>)
    ensures
        r == ev_charger_type_named(u@),
{
    if str_eq(u, "UNSPECIFIED") {
        Some(EvChargerType::Unspecified)
    } else if str_eq(u, "AC") {
        Some(EvChargerType::Ac)
    } else if str_eq(u, "DC") {
        Some(EvChargerType::Dc)
    } else if str_eq(u, "HYBRID") {
        Some(EvChargerType::Hybrid)
    } else {
        None
    }
}

} // verus!
