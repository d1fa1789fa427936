use vstd::prelude::*;
use crate::model::{to_upper, upper_of};
use crate::value::{str_eq, clamp_i64, field, int_of, milli_of, symbol_of, Value};

verus! {

#[derive(Clone, Copy, PartialEq, Eq, Structural, Debug)]
pub enum BatteryComponentState {
    Unspecified,
    Off,
    Idle,
    Charging,
    Discharging,
    Error,
    Locked,
    SwitchingOn,
    SwitchingOff,
    Unknown,
}

/// The state whose upper-cased name is `u`: the enum member `COMPONENT_STATE_` followed
/// by `u`; an unrecognised name reads as `Unspecified`.
pub open spec fn battery_component_state_named(u: Seq<char>) -> BatteryComponentState {
    if u == "UNSPECIFIED"@ {
        BatteryComponentState::Unspecified
    } else if u == "OFF"@ {
        BatteryComponentState::Off
    } else if u == "IDLE"@ {
        BatteryComponentState::Idle
    } else if u == "CHARGING"@ {
        BatteryComponentState::Charging
    } else if u == "DISCHARGING"@ {
        BatteryComponentState::Discharging
    } else if u == "ERROR"@ {
        BatteryComponentState::Error
    } else if u == "LOCKED"@ {
        BatteryComponentState::Locked
    } else if u == "SWITCHING_ON"@ {
        BatteryComponentState::SwitchingOn
    } else if u == "SWITCHING_OFF"@ {
        BatteryComponentState::SwitchingOff
    } else if u == "UNKNOWN"@ {
        BatteryComponentState::Unknown
    } else {
        BatteryComponentState::Unspecified
    }
}

pub fn parse_battery_component_state(s: &str) -> (r: BatteryComponentState)
    ensures
        r == battery_component_state_named(upper_of(s@)),
{
    let u = to_upper(s);
    battery_component_state_from_upper(u.as_str())
}

pub fn battery_component_state_from_upper(u: &str) -> (r: BatteryComponentState)
    ensures
        r == battery_component_state_named(u@),
{
    if str_eq(u, "UNSPECIFIED") {
        BatteryComponentState::Unspecified
    } else if str_eq(u, "OFF") {
        BatteryComponentState::Off
    } else if str_eq(u, "IDLE") {
        BatteryComponentState::Idle
    } else if str_eq(u, "CHARGING") {
        BatteryComponentState::Charging
    } else if str_eq(u, "DISCHARGING") {
        BatteryComponentState::Discharging
    } else if str_eq(u, "ERROR") {
        BatteryComponentState::Error
    } else if str_eq(u, "LOCKED") {
        BatteryComponentState::Locked
    } else if str_eq(u, "SWITCHING_ON") {
        BatteryComponentState::SwitchingOn
    } else if str_eq(u, "SWITCHING_OFF") {
        BatteryComponentState::SwitchingOff
    } else if str_eq(u, "UNKNOWN") {
        BatteryComponentState::Unknown
    } else {
        BatteryComponentState::Unspecified
    }
}

#[derive(Clone, Copy, PartialEq, Eq, Structural, Debug)]
pub enum RelayState {
    Unspecified,
    Opened,
    Precharging,
    Closed,
    Error,
    Locked,
}

/// The state whose upper-cased name is `u`: the enum member `RELAY_STATE_` followed
/// by `u`; an unrecognised name reads as `Unspecified`.
pub open spec fn relay_state_named(u: Seq<char>) -> RelayState {
    if u == "UNSPECIFIED"@ {
        RelayState::Unspecified
    } else if u == "OPENED"@ {
        RelayState::Opened
    } else if u == "PRECHARGING"@ {
        RelayState::Precharging
    } else if u == "CLOSED"@ {
        RelayState::Closed
    } else if u == "ERROR"@ {
        RelayState::Error
    } else if u == "LOCKED"@ {
        RelayState::Locked
    } else {
        RelayState::Unspecified
    }
}

pub fn parse_relay_state(s: &str) -> (r: RelayState)
    ensures
        r == relay_state_named(upper_of(s@)),
{
    let u = to_upper(s);
    relay_state_from_upper(u.as_str())
}

pub fn relay_state_from_upper(u: &str) -> (r: RelayState)
    ensures
        r == relay_state_named(u@),
{
    if str_eq(u, "UNSPECIFIED") {
        RelayState::Unspecified
    } else if str_eq(u, "OPENED") {
        RelayState::Opened
    } else if str_eq(u, "PRECHARGING") {
        RelayState::Precharging
    } else if str_eq(u, "CLOSED") {
        RelayState::Closed
    } else if str_eq(u, "ERROR") {
        RelayState::Error
    } else if str_eq(u, "LOCKED") {
        RelayState::Locked
    } else {
        RelayState::Unspecified
    }
}

#[derive(Clone, Copy, PartialEq, Eq, Structural, Debug)]
pub enum InverterComponentState {
    Unspecified,
    Off,
    SwitchingOn,
    SwitchingOff,
    Standby,
    Idle,
    Charging,
    Discharging,
    Error,
    Unavailable,
    Unknown,
}

/// The state whose upper-cased name is `u`: the enum member `COMPONENT_STATE_` followed
/// by `u`; an unrecognised name reads as `Unspecified`.
pub open spec fn inverter_component_state_named(u: Seq<char>) -> InverterComponentState {
    if u == "UNSPECIFIED"@ {
        InverterComponentState::Unspecified
    } else if u == "OFF"@ {
        InverterComponentState::Off
    } else if u == "SWITCHING_ON"@ {
        InverterComponentState::SwitchingOn
    } else if u == "SWITCHING_OFF"@ {
        InverterComponentState::SwitchingOff
    } else if u == "STANDBY"@ {
        InverterComponentState::Standby
    } else if u == "IDLE"@ {
        InverterComponentState::Idle
    } else if u == "CHARGING"@ {
        InverterComponentState::Charging
    } else if u == "DISCHARGING"@ {
        InverterComponentState::Discharging
    } else if u == "ERROR"@ {
        InverterComponentState::Error
    } else if u == "UNAVAILABLE"@ {
        InverterComponentState::Unavailable
    } else if u == "UNKNOWN"@ {
        InverterComponentState::Unknown
    } else {
        InverterComponentState::Unspecified
    }
}

pub fn parse_inverter_component_state(s: &str) -> (r: InverterComponentState)
    ensures
        r == inverter_component_state_named(upper_of(s@)),
{
    let u = to_upper(s);
    inverter_component_state_from_upper(u.as_str())
}

pub fn inverter_component_state_from_upper(u: &str) -> (r: InverterComponentState)
    ensures
        r == inverter_component_state_named(u@),
{
    if str_eq(u, "UNSPECIFIED") {
        InverterComponentState::Unspecified
    } else if str_eq(u, "OFF") {
        InverterComponentState::Off
    } else if str_eq(u, "SWITCHING_ON") {
        InverterComponentState::SwitchingOn
    } else if str_eq(u, "SWITCHING_OFF") {
        InverterComponentState::SwitchingOff
    } else if str_eq(u, "STANDBY") {
        InverterComponentState::Standby
    } else if str_eq(u, "IDLE") {
        InverterComponentState::Idle
    } else if str_eq(u, "CHARGING") {
        InverterComponentState::Charging
    } else if str_eq(u, "DISCHARGING") {
        InverterComponentState::Discharging
    } else if str_eq(u, "ERROR") {
        InverterComponentState::Error
    } else if str_eq(u, "UNAVAILABLE") {
        InverterComponentState::Unavailable
    } else if str_eq(u, "UNKNOWN") {
        InverterComponentState::Unknown
    } else {
        InverterComponentState::Unspecified
    }
}

/// A range of values, in thousandths.
#[derive(Clone, Copy, PartialEq, Eq, Structural, Debug)]
pub struct Bounds {
    pub lower: i64,
    pub upper: i64,
}

/// One measured quantity, in thousandths of its unit.
#[derive(Clone, Copy, PartialEq, Eq, Structural, Debug)]
pub struct Metric {
    pub value: i64,
    pub system_inclusion_bounds: Option<Bounds>,
    pub system_exclusion_bounds: Option<Bounds>,
}

/// An aggregate over a series of one quantity, in thousandths.
#[derive(Clone, Copy, PartialEq, Eq, Structural, Debug)]
pub struct MetricAggregation {
    pub avg: i64,
    pub system_inclusion_bounds: Option<Bounds>,
}

#[derive(Clone, Copy, PartialEq, Eq, Structural, Debug)]
pub struct AcPhase {
    pub voltage: Metric,
    pub current: Metric,
}

#[derive(Clone, Copy, PartialEq, Eq, Structural, Debug)]
pub struct Ac {
    pub frequency: Metric,
    /// The sum of the three phase currents.
    pub current: Metric,
    pub power_active: Metric,
    pub phase_1: AcPhase,
    pub phase_2: AcPhase,
    pub phase_3: AcPhase,
}

#[derive(Clone, Copy, PartialEq, Eq, Structural, Debug)]
pub struct Dc {
    pub voltage: Metric,
    pub current: Metric,
    pub power: Metric,
}

#[derive(Clone, Copy, PartialEq, Eq, Structural, Debug)]
pub struct BatteryData {
    pub capacity: i64,
    pub component_state: BatteryComponentState,
    pub relay_state: RelayState,
    pub soc: MetricAggregation,
    pub dc: Dc,
}

#[derive(Clone, Copy, PartialEq, Eq, Structural, Debug)]
pub enum Payload {
    Battery(BatteryData),
    Inverter { component_state: InverterComponentState, ac: Ac },
    Meter { ac: Ac },
}

/// One telemetry sample of one component.
#[derive(Clone, Copy, PartialEq, Eq, Structural, Debug)]
pub struct ComponentData {
    pub timestamp_millis: u64,
    pub id: u64,
    pub payload: Payload,
}

pub open spec fn plain_metric(value: i64) -> Metric {
    Metric { value, system_inclusion_bounds: None, system_exclusion_bounds: None }
}

fn plain(value: i64) -> (r: Metric)
    ensures
        r == plain_metric(value),
{
    Metric { value, system_inclusion_bounds: None, system_exclusion_bounds: None }
}

/// The numeric field `key` of `rec`, in thousandths, zero when absent.
pub open spec fn num(rec: Value, key: Seq<char>) -> i64 {
    milli_of(field(rec, key))
}

/// The power metric of a record, with its inclusion and exclusion bounds.
pub open spec fn power_metric(rec: Value, key: Seq<char>) -> Metric {
    Metric {
        value: num(rec, key),
        system_inclusion_bounds: Some(
            Bounds { lower: num(rec, "inclusion-lower"@), upper: num(rec, "inclusion-upper"@) },
        ),
        system_exclusion_bounds: Some(
            Bounds { lower: num(rec, "exclusion-lower"@), upper: num(rec, "exclusion-upper"@) },
        ),
    }
}

fn power_metric_of(rec: &Value, key: &str) -> (r: Metric)
    ensures
        r == power_metric(*rec, key@),
{
    Metric {
        value: rec.milli_field(key),
        system_inclusion_bounds: Some(
            Bounds {
                lower: rec.milli_field("inclusion-lower"),
                upper: rec.milli_field("inclusion-upper"),
            },
        ),
        system_exclusion_bounds: Some(
            Bounds {
                lower: rec.milli_field("exclusion-lower"),
                upper: rec.milli_field("exclusion-upper"),
            },
        ),
    }
}

/// Item `i` of the three-phase list in field `key`, in thousandths; zero
/// when the field or the item is absent or not a number.
pub open spec fn phase(rec: Value, key: Seq<char>, i: int) -> i64 {
    match field(rec, key) {
        Some(Value::List(xs)) => if 0 <= i < xs@.len() {
            milli_of(Some(xs@[i]))
        } else {
            0
        },
        _ => 0,
    }
}

fn phase_of(rec: &Value, key: &str, i: usize) -> (r: i64)
    ensures
        r == phase(*rec, key@, i as int),
{
    match rec.get_field(key) {
        Some(Value::List(xs)) => if i < xs.len() {
            let item = Value::milli_of_value(&xs[i]);
            item
        } else {
            0
        },
        _ => 0,
    }
}

/// The AC block of an inverter or meter record; `frequency` is what the
/// script's frequency expression gave.
pub open spec fn ac_spec(rec: Value, frequency: Value) -> Ac {
    Ac {
        frequency: plain_metric(milli_of(Some(frequency))),
        current: plain_metric(
            clamp_i64(phase(rec, "current"@, 0) + phase(rec, "current"@, 1) + phase(rec, "current"@, 2)),
        ),
        power_active: power_metric(rec, "power"@),
        phase_1: AcPhase {
            voltage: plain_metric(phase(rec, "voltage"@, 0)),
            current: plain_metric(phase(rec, "current"@, 0)),
        },
        phase_2: AcPhase {
            voltage: plain_metric(phase(rec, "voltage"@, 1)),
            current: plain_metric(phase(rec, "current"@, 1)),
        },
        phase_3: AcPhase {
            voltage: plain_metric(phase(rec, "voltage"@, 2)),
            current: plain_metric(phase(rec, "current"@, 2)),
        },
    }
}

pub fn ac_from_record(rec: &Value, frequency: &Value) -> (r: Ac)
    ensures
        r == ac_spec(*rec, *frequency),
{
    let c0 = phase_of(rec, "current", 0);
    let c1 = phase_of(rec, "current", 1);
    let c2 = phase_of(rec, "current", 2);
    let v0 = phase_of(rec, "voltage", 0);
    let v1 = phase_of(rec, "voltage", 1);
    let v2 = phase_of(rec, "voltage", 2);
    let sum: i128 = c0 as i128 + c1 as i128 + c2 as i128;
    let total: i64 = if sum < i64::MIN as i128 {
        i64::MIN
    } else if sum > i64::MAX as i128 {
        i64::MAX
    } else {
        sum as i64
    };
    Ac {
        frequency: plain(Value::milli_of_value(frequency)),
        current: plain(total),
        power_active: power_metric_of(rec, "power"),
        phase_1: AcPhase { voltage: plain(v0), current: plain(c0) },
        phase_2: AcPhase { voltage: plain(v1), current: plain(c1) },
        phase_3: AcPhase { voltage: plain(v2), current: plain(c2) },
    }
}

pub open spec fn battery_spec(rec: Value, id: u64, timestamp_millis: u64) -> ComponentData {
    ComponentData {
        timestamp_millis,
        id,
        payload: Payload::Battery(
            BatteryData {
                capacity: num(rec, "capacity"@),
                component_state: match symbol_of(field(rec, "component-state"@)) {
                    Some(s) => battery_component_state_named(upper_of(s)),
                    None => BatteryComponentState::Unspecified,
                },
                relay_state: match symbol_of(field(rec, "relay-state"@)) {
                    Some(s) => relay_state_named(upper_of(s)),
                    None => RelayState::Unspecified,
                },
                soc: MetricAggregation {
                    avg: num(rec, "soc"@),
                    system_inclusion_bounds: Some(
                        Bounds { lower: num(rec, "soc-lower"@), upper: num(rec, "soc-upper"@) },
                    ),
                },
                dc: Dc {
                    voltage: plain_metric(num(rec, "voltage"@)),
                    current: plain_metric(num(rec, "current"@)),
                    power: power_metric(rec, "power"@),
                },
            },
        ),
    }
}

/// Builds a battery sample from the record a script hands the host; `None`
/// when the record has no integer `id`. Absent numbers read as zero.
pub fn battery_data(rec: &Value, timestamp_millis: u64) -> (r: Option<ComponentData>)
    ensures
        match int_of(field(*rec, "id"@)) {
            Some(n) => r == Some(battery_spec(*rec, n as u64, timestamp_millis)),
            None => r is None,
        },
{
    let id = match rec.int_field("id") {
        Some(n) => n as u64,
        None => return None,
    };
    let component_state = match rec.symbol_field("component-state") {
        Some(s) => parse_battery_component_state(s),
        None => BatteryComponentState::Unspecified,
    };
    let relay_state = match rec.symbol_field("relay-state") {
        Some(s) => parse_relay_state(s),
        None => RelayState::Unspecified,
    };
    Some(
        ComponentData {
            timestamp_millis,
            id,
            payload: Payload::Battery(
                BatteryData {
                    capacity: rec.milli_field("capacity"),
                    component_state,
                    relay_state,
                    soc: MetricAggregation {
                        avg: rec.milli_field("soc"),
                        system_inclusion_bounds: Some(
                            Bounds {
                                lower: rec.milli_field("soc-lower"),
                                upper: rec.milli_field("soc-upper"),
                            },
                        ),
                    },
                    dc: Dc {
                        voltage: plain(rec.milli_field("voltage")),
                        current: plain(rec.milli_field("current")),
                        power: power_metric_of(rec, "power"),
                    },
                },
            ),
        },
    )
}

/// Builds an inverter sample; `None` when the record has no integer `id`.
pub fn inverter_data(rec: &Value, frequency: &Value, timestamp_millis: u64) -> (r: Option<
    ComponentData,
>)
    ensures
        match int_of(field(*rec, "id"@)) {
            Some(n) => r == Some(
                ComponentData {
                    timestamp_millis,
                    id: n as u64,
                    payload: Payload::Inverter {
                        component_state: match symbol_of(field(*rec, "component-state"@)) {
                            Some(s) => inverter_component_state_named(upper_of(s)),
                            None => InverterComponentState::Unspecified,
                        },
                        ac: ac_spec(*rec, *frequency),
                    },
                },
            ),
            None => r is None,
        },
{
    let id = match rec.int_field("id") {
        Some(n) => n as u64,
        None => return None,
    };
    let component_state = match rec.symbol_field("component-state") {
        Some(s) => parse_inverter_component_state(s),
        None => InverterComponentState::Unspecified,
    };
    let ac = ac_from_record(rec, frequency);
    Some(ComponentData { timestamp_millis, id, payload: Payload::Inverter { component_state, ac } })
}

/// Builds a meter sample; `None` when the record has no integer `id`.
pub fn meter_data(rec: &Value, frequency: &Value, timestamp_millis: u64) -> (r: Option<ComponentData>)
    ensures
        match int_of(field(*rec, "id"@)) {
            Some(n) => r == Some(
                ComponentData {
                    timestamp_millis,
                    id: n as u64,
                    payload: Payload::Meter { ac: ac_spec(*rec, *frequency) },
                },
            ),
            None => r is None,
        },
{
    let id = match rec.int_field("id") {
        Some(n) => n as u64,
        None => return None,
    };
    let ac = ac_from_record(rec, frequency);
    Some(ComponentData { timestamp_millis, id, payload: Payload::Meter { ac } })
}

} // verus!
