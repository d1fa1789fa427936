use microgrid_sim::bridge::{Config, StreamDescriptor};
use microgrid_sim::config::{
    component_from_record, components_from_records, connections_from_pairs, ConfigError,
};
use microgrid_sim::interlock::TimeoutTracker;
use microgrid_sim::model::{
    category_from_upper, parse_battery_type, parse_category, BatteryType, ComponentCategory,
    Connection, InverterType, Metadata,
};
use microgrid_sim::scheduler::{Cadence, StreamAction, StreamEvent};
use microgrid_sim::server::{battery_inverter_ids, MicrogridServer};
use microgrid_sim::telemetry::{
    ac_from_record, battery_data, inverter_data, meter_data, BatteryComponentState, Bounds,
    InverterComponentState, Payload, RelayState,
};
use microgrid_sim::value::{Entry, Value};

fn sym(s: &str) -> Value {
    Value::Symbol(s.to_string())
}

fn rec(fields: Vec<(&str, Value)>) -> Value {
    Value::Record(
        fields
            .into_iter()
            .map(|(k, v)| Entry { key: k.to_string(), value: v })
            .collect(),
    )
}

fn stream(interval: i64, data_fn: u64) -> Value {
    rec(vec![("interval", Value::Int(interval)), ("data", Value::Callable(data_fn))])
}

fn component(id: i64, category: &str, typ: Option<&str>) -> Value {
    let mut fields = vec![
        ("id", Value::Int(id)),
        ("name", Value::Str(format!("c{id}"))),
        ("category", sym(category)),
    ];
    if let Some(t) = typ {
        fields.push(("type", sym(t)));
    }
    fields.push(("stream", stream(100 + id, id as u64)));
    rec(fields)
}

fn config_of(records: Vec<Value>) -> Config {
    Config::new(
        Value::List(records),
        Value::List(vec![]),
        Value::Str("[::1]:8800".to_string()),
    )
}

#[test]
fn battery_record_lists_li_ion_battery() {
    let r = rec(vec![
        ("category", sym("battery")),
        ("type", sym("li_ion")),
        ("id", Value::Int(7)),
        ("capacity", Value::Int(50)),
    ]);
    let config = config_of(vec![r]);
    let cs = config.components().unwrap();
    assert_eq!(cs.len(), 1);
    assert_eq!(cs[0].id, 7);
    assert_eq!(cs[0].category, ComponentCategory::Battery);
    assert_eq!(cs[0].metadata, Some(Metadata::Battery(BatteryType::LiIon)));
    assert_eq!(cs[0].name, "");
}

#[test]
fn unknown_category_fails_whole_list() {
    let records = vec![
        component(1, "meter", None),
        component(2, "windmill", None),
        component(3, "battery", Some("li_ion")),
    ];
    let config = config_of(records);
    assert_eq!(config.components().unwrap_err(), ConfigError::InvalidCategory(2));
}

#[test]
fn missing_category_is_a_hard_failure() {
    let r = rec(vec![("id", Value::Int(4))]);
    assert_eq!(component_from_record(&r, 0).unwrap_err(), ConfigError::InvalidCategory(4));
}

#[test]
fn missing_id_is_reported_with_position() {
    let recs = Value::List(vec![component(1, "meter", None), rec(vec![("category", sym("meter"))])]);
    assert_eq!(components_from_records(&recs).unwrap_err(), ConfigError::MissingId(1));
}

#[test]
fn unknown_type_only_drops_metadata() {
    let r = component(9, "inverter", Some("steam"));
    let c = component_from_record(&r, 0).unwrap();
    assert_eq!(c.category, ComponentCategory::Inverter);
    assert_eq!(c.metadata, None);
    assert_eq!(c.name, "c9");
    let r = component(10, "meter", Some("li_ion"));
    assert_eq!(component_from_record(&r, 0).unwrap().metadata, None);
}

#[test]
fn names_match_case_insensitively() {
    assert_eq!(parse_category("EV_Charger"), Some(ComponentCategory::EvCharger));
    assert_eq!(parse_category("ev-charger"), None);
    assert_eq!(parse_category("unspecified"), Some(ComponentCategory::Unspecified));
    assert_eq!(parse_battery_type("Na_Ion"), Some(BatteryType::NaIon));
    assert_eq!(parse_battery_type("li_ion "), None);
}

#[test]
fn first_duplicate_key_wins() {
    let r = rec(vec![
        ("id", Value::Int(5)),
        ("category", sym("battery")),
        ("category", sym("meter")),
    ]);
    assert_eq!(component_from_record(&r, 0).unwrap().category, ComponentCategory::Battery);
}

#[test]
fn components_not_a_list() {
    assert_eq!(components_from_records(&Value::Int(3)).unwrap_err(), ConfigError::NotAList);
}

#[test]
fn connections_are_pairs_of_ids() {
    let pairs = Value::List(vec![
        Value::List(vec![Value::Int(1), Value::Int(2)]),
        Value::List(vec![Value::Int(2), Value::Int(3)]),
    ]);
    let cs = connections_from_pairs(&pairs).unwrap();
    assert_eq!(cs, vec![Connection { start: 1, end: 2 }, Connection { start: 2, end: 3 }]);
    let bad = Value::List(vec![
        Value::List(vec![Value::Int(1), Value::Int(2)]),
        Value::List(vec![Value::Int(2)]),
    ]);
    assert_eq!(connections_from_pairs(&bad).unwrap_err(), ConfigError::InvalidConnection(1));
    assert_eq!(connections_from_pairs(&Value::Nil).unwrap_err(), ConfigError::NotAList);
}

#[test]
fn battery_sample_soc_aggregation() {
    let r = rec(vec![
        ("id", Value::Int(7)),
        ("soc", Value::Int(55)),
        ("soc-lower", Value::Int(10)),
        ("soc-upper", Value::Int(90)),
        ("capacity", Value::Milli(92_500)),
        ("component-state", sym("charging")),
        ("relay-state", sym("closed")),
    ]);
    let d = battery_data(&r, 1234).unwrap();
    assert_eq!(d.id, 7);
    assert_eq!(d.timestamp_millis, 1234);
    match d.payload {
        Payload::Battery(b) => {
            assert_eq!(b.soc.avg, 55_000);
            assert_eq!(b.soc.system_inclusion_bounds, Some(Bounds { lower: 10_000, upper: 90_000 }));
            assert_eq!(b.capacity, 92_500);
            assert_eq!(b.component_state, BatteryComponentState::Charging);
            assert_eq!(b.relay_state, RelayState::Closed);
            assert_eq!(b.dc.voltage.value, 0);
            assert_eq!(b.dc.power.system_exclusion_bounds, Some(Bounds { lower: 0, upper: 0 }));
        }
        _ => panic!("expected a battery payload"),
    }
}

#[test]
fn sample_without_id_is_refused() {
    let r = rec(vec![("soc", Value::Int(55))]);
    assert!(battery_data(&r, 0).is_none());
    assert!(meter_data(&r, &Value::Nil, 0).is_none());
}

#[test]
fn ac_current_is_sum_of_phases() {
    let r = rec(vec![
        ("id", Value::Int(3)),
        ("current", Value::List(vec![Value::Int(1), Value::Milli(2_500), Value::Int(3)])),
        ("voltage", Value::List(vec![Value::Int(230), Value::Int(231)])),
        ("power", Value::Int(-400)),
        ("inclusion-lower", Value::Int(-1000)),
        ("inclusion-upper", Value::Int(1000)),
    ]);
    let ac = ac_from_record(&r, &Value::Milli(50_010));
    assert_eq!(ac.current.value, 6_500);
    assert_eq!(ac.frequency.value, 50_010);
    assert_eq!(ac.phase_2.current.value, 2_500);
    assert_eq!(ac.phase_1.voltage.value, 230_000);
    assert_eq!(ac.phase_3.voltage.value, 0);
    assert_eq!(ac.power_active.value, -400_000);
    assert_eq!(
        ac.power_active.system_inclusion_bounds,
        Some(Bounds { lower: -1_000_000, upper: 1_000_000 })
    );
    let d = inverter_data(&r, &Value::Int(50), 9).unwrap();
    match d.payload {
        Payload::Inverter { component_state, ac } => {
            assert_eq!(component_state, InverterComponentState::Unspecified);
            assert_eq!(ac.frequency.value, 50_000);
        }
        _ => panic!("expected an inverter payload"),
    }
}

#[test]
fn ac_current_sum_saturates() {
    let r = rec(vec![(
        "current",
        Value::List(vec![Value::Milli(i64::MAX), Value::Milli(1), Value::Milli(0)]),
    )]);
    assert_eq!(ac_from_record(&r, &Value::Nil).current.value, i64::MAX);
}

#[test]
fn unknown_component_data_keeps_cache() {
    let mut config = config_of(vec![component(1, "meter", None)]);
    assert_eq!(config.stream_descriptor(42), Err(ConfigError::ComponentNotFound(42)));
    assert_eq!(config.cached_descriptor(42), None);
    assert_eq!(config.cached_descriptor(1), None);
}

#[test]
fn descriptor_is_resolved_once_and_cached() {
    let mut config = config_of(vec![component(1, "meter", None), component(2, "battery", None)]);
    let d = config.stream_descriptor(2).unwrap();
    assert_eq!(d, StreamDescriptor { data_fn: 2, interval_millis: 102 });
    assert_eq!(config.cached_descriptor(2), Some(d));
    assert_eq!(config.stream_descriptor(2), Ok(d));
}

#[test]
fn invalid_stream_is_reported() {
    let r = rec(vec![
        ("id", Value::Int(5)),
        ("category", sym("meter")),
        ("stream", rec(vec![("interval", Value::Int(-1)), ("data", Value::Callable(0))])),
    ]);
    let mut config = config_of(vec![r]);
    assert_eq!(config.stream_descriptor(5), Err(ConfigError::InvalidStream(5)));
    assert_eq!(config.cached_descriptor(5), None);
}

#[test]
fn reload_swaps_generation() {
    let mut config = config_of(vec![component(1, "meter", None)]);
    assert!(config.stream_descriptor(1).is_ok());
    config.reload(
        Value::List(vec![component(2, "meter", None)]),
        Value::List(vec![]),
        Value::Str("0.0.0.0:1".to_string()),
    );
    assert_eq!(config.cached_descriptor(1), None);
    assert_eq!(config.stream_descriptor(1), Err(ConfigError::ComponentNotFound(1)));
    assert_eq!(config.stream_descriptor(2).unwrap().interval_millis, 102);
    assert_eq!(config.socket_addr(), Some("0.0.0.0:1"));
}

#[test]
fn socket_addr_must_be_text() {
    let config = Config::new(Value::List(vec![]), Value::List(vec![]), Value::Int(1));
    assert_eq!(config.socket_addr(), None);
}

#[test]
fn interlock_expires_after_retention() {
    let mut t = TimeoutTracker::new(vec![5], 300);
    t.add(5, 1_000);
    assert_eq!(t.deadline(5), Some(1_300));
    assert!(t.remove_expired(1_299).is_empty());
    assert_eq!(t.remove_expired(1_300), vec![5]);
    assert_eq!(t.deadline(5), None);
    assert!(t.remove_expired(1_400).is_empty());
}

#[test]
fn interlock_refresh_postpones_expiry() {
    let mut t = TimeoutTracker::new(vec![5, 6], 300);
    t.add(5, 0);
    t.add(5, 200);
    assert!(t.remove_expired(300).is_empty());
    assert_eq!(t.deadline(5), Some(500));
    assert_eq!(t.remove_expired(500), vec![5]);
}

#[test]
fn interlock_ignores_unguarded() {
    let mut t = TimeoutTracker::new(vec![5], 300);
    t.add(8, 0);
    assert_eq!(t.deadline(8), None);
    assert!(t.remove_expired(u64::MAX).is_empty());
    t.add(5, u64::MAX - 1);
    assert_eq!(t.deadline(5), Some(u64::MAX));
}

#[test]
fn server_guards_battery_inverters() {
    let config = config_of(vec![
        component(1, "inverter", Some("battery")),
        component(2, "inverter", Some("solar")),
        component(3, "battery", Some("li_ion")),
        component(4, "inverter", None),
    ]);
    let ids = battery_inverter_ids(&config.components().unwrap());
    assert_eq!(ids, vec![1]);
    let mut server = MicrogridServer::new(config, 300).unwrap();
    server.note_power_command(2, 0);
    server.note_power_command(1, 0);
    assert_eq!(server.timeout_tracker.deadline(2), None);
    assert_eq!(server.sweep(299), Vec::<u64>::new());
    assert_eq!(server.sweep(300), vec![1]);
}

#[test]
fn server_refuses_invalid_components() {
    let config = config_of(vec![component(1, "inverter", Some("battery")), component(2, "x", None)]);
    assert_eq!(MicrogridServer::new(config, 300).err(), Some(ConfigError::InvalidCategory(2)));
}

#[test]
fn cadence_targets_do_not_drift() {
    let start = 10_000;
    let mut c = Cadence::new(start);
    let mut now = start;
    let mut arrivals = vec![];
    for k in 0..10u64 {
        // each delivery runs late by a varying amount
        now += 7 + (k * 13) % 40;
        arrivals.push(c.last_target);
        match c.step(StreamEvent::Delivered { interval_millis: 100, now }) {
            StreamAction::Sleep(ms) => now += ms,
            other => panic!("unexpected {other:?}"),
        }
    }
    assert_eq!(c.last_target, start + 1_000);
    let total: u64 = arrivals.windows(2).map(|w| w[1] - w[0]).sum();
    assert_eq!(total / 9, 100);
}

#[test]
fn cadence_late_delivery_does_not_sleep() {
    let mut c = Cadence::new(0);
    assert_eq!(
        c.step(StreamEvent::Delivered { interval_millis: 100, now: 250 }),
        StreamAction::Sleep(0)
    );
    assert_eq!(c.last_target, 100);
    assert_eq!(
        c.step(StreamEvent::Delivered { interval_millis: 100, now: 260 }),
        StreamAction::Sleep(0)
    );
    assert_eq!(
        c.step(StreamEvent::Delivered { interval_millis: 100, now: 270 }),
        StreamAction::Sleep(30)
    );
}

#[test]
fn cadence_stops_on_disconnect_or_failure() {
    let mut c = Cadence::new(0);
    assert_eq!(c.step(StreamEvent::Disconnected), StreamAction::Stop);
    assert_eq!(
        c.step(StreamEvent::FetchFailed(ConfigError::ComponentNotFound(3))),
        StreamAction::Fail(ConfigError::ComponentNotFound(3))
    );
    assert_eq!(c.last_target, 0);
}

#[test]
fn inverter_types_parse() {
    let r = component(1, "Inverter", Some("HYBRID"));
    assert_eq!(
        component_from_record(&r, 0).unwrap().metadata,
        Some(Metadata::Inverter(InverterType::Hybrid))
    );
}

#[test]
fn names_use_unicode_upper_case() {
    assert_eq!(parse_category("\u{17f}ensor"), Some(ComponentCategory::Sensor));
    assert_eq!(category_from_upper("BATTERY"), Some(ComponentCategory::Battery));
    assert_eq!(category_from_upper("battery"), None);
}

#[test]
fn string_category_is_a_hard_failure() {
    let r = rec(vec![("id", Value::Int(7)), ("category", Value::Str("battery".to_string()))]);
    assert_eq!(component_from_record(&r, 0).unwrap_err(), ConfigError::InvalidCategory(7));
}

#[test]
fn string_type_gives_no_metadata() {
    let r = rec(vec![
        ("id", Value::Int(7)),
        ("category", sym("battery")),
        ("type", Value::Str("li_ion".to_string())),
    ]);
    assert_eq!(component_from_record(&r, 0).unwrap().metadata, None);
}

#[test]
fn symbol_name_reads_as_empty() {
    let r = rec(vec![("id", Value::Int(7)), ("name", sym("bat")), ("category", sym("meter"))]);
    assert_eq!(component_from_record(&r, 0).unwrap().name, "");
}

#[test]
fn string_states_read_as_unspecified() {
    let r = rec(vec![
        ("id", Value::Int(7)),
        ("component-state", Value::Str("charging".to_string())),
        ("relay-state", Value::Str("closed".to_string())),
    ]);
    match battery_data(&r, 0).unwrap().payload {
        Payload::Battery(b) => {
            assert_eq!(b.component_state, BatteryComponentState::Unspecified);
            assert_eq!(b.relay_state, RelayState::Unspecified);
        }
        _ => panic!("expected a battery payload"),
    }
}

#[test]
fn socket_addr_symbol_is_refused() {
    let config = Config::new(Value::List(vec![]), Value::List(vec![]), sym("localhost"));
    assert_eq!(config.socket_addr(), None);
}
