use tpower::history::{
    summarize, ChargingHistoryStage, ChargingSession, DeviceType, FULL_LEVEL, MIN_SESSION,
};
use tpower::milli::Milli;
use tpower::provider::{NormalizedData, NormalizedResource};

fn reading(level: i32, charging: bool, at: i64, watts: i64) -> NormalizedResource {
    NormalizedResource {
        is_local: true,
        is_charging: charging,
        time_remain: 0,
        last_update: at,
        adapter_name: None,
        data: NormalizedData {
            system_in: Milli { raw: watts * 1000 },
            battery_level: level,
            temperature: Milli { raw: -watts },
            ..NormalizedData::default()
        },
    }
}

fn stage(level: i32, at: i64, watts: i64) -> ChargingHistoryStage {
    ChargingHistoryStage { data: reading(level, true, at, watts), raw: format!("raw {at}") }
}

#[test]
fn a_session_without_readings_has_no_summary() {
    assert_eq!(summarize(Vec::new(), DeviceType::Local, "host".to_string()), None);
}

#[test]
fn a_summary_holds_the_ends_the_average_and_the_peak() {
    let staged = vec![stage(40, 1000, 30), stage(50, 1600, 60), stage(61, 2500, 45), stage(70, 3000, 10)];
    let mut last = stage(75, 3400, 5);
    last.data.adapter_name = Some("96W".to_string());
    let mut all = staged.clone();
    all.push(last.clone());
    let history = summarize(all.clone(), DeviceType::Local, "host".to_string()).unwrap();
    assert!(!history.is_remote);
    assert_eq!(history.name, "host");
    assert_eq!(history.udid, "local");
    assert_eq!(history.from_level, 40);
    assert_eq!(history.end_level, 75);
    assert_eq!(history.timestamp, 1000);
    assert_eq!(history.duration, 2400);
    assert_eq!(history.adapter_name, "96W");
    assert_eq!(history.detail.avg.system_in, Milli { raw: 30_000 });
    assert_eq!(history.detail.avg.battery_level, (40 + 50 + 61 + 70 + 75) / 5);
    assert_eq!(history.detail.avg.temperature, Milli { raw: -30 });
    assert_eq!(history.detail.peak.system_in, Milli { raw: 60_000 });
    assert_eq!(history.detail.peak.battery_level, 75);
    assert_eq!(history.detail.peak.temperature, Milli { raw: 0 });
    assert_eq!(history.detail.curve, all.iter().map(|s| s.data.clone()).collect::<Vec<_>>());
    assert_eq!(history.detail.raw, vec!["raw 1000", "raw 1600", "raw 2500", "raw 3000", "raw 3400"]);
}

#[test]
fn a_summary_of_a_device_carries_its_identifier() {
    let history =
        summarize(vec![stage(10, 5, 1)], DeviceType::Remote("u-1".to_string()), "phone".to_string()).unwrap();
    assert!(history.is_remote);
    assert_eq!(history.udid, "u-1");
    assert_eq!(history.name, "phone");
    assert_eq!(history.adapter_name, "Unknown");
    assert_eq!(history.duration, 0);
    assert_eq!(history.detail.avg, history.detail.curve[0].data);
}

#[test]
fn the_sum_is_cut_off_at_the_range() {
    let big = NormalizedData { system_in: Milli { raw: i64::MAX }, battery_level: i32::MAX, ..NormalizedData::default() };
    let sum = big.plus(&big);
    assert_eq!(sum.system_in.raw, i64::MAX);
    assert_eq!(sum.battery_level, i32::MAX);
    let low = NormalizedData { battery_level: i32::MIN, ..NormalizedData::default() };
    assert_eq!(low.plus(&low).battery_level, i32::MIN);
    let a = NormalizedData { system_load: Milli { raw: 5 }, battery_level: 3, ..NormalizedData::default() };
    let b = NormalizedData { system_load: Milli { raw: -7 }, battery_level: 4, ..NormalizedData::default() };
    assert_eq!(a.plus(&b), NormalizedData { system_load: Milli { raw: -2 }, battery_level: 7, ..NormalizedData::default() });
}

#[test]
fn readings_join_a_session_while_the_source_charges() {
    let mut session = ChargingSession::new();
    assert_eq!(session.record(reading(40, false, 1, 0), "a".to_string()), None);
    assert_eq!(session.record(reading(100, true, 2, 0), "b".to_string()), None);
    assert_eq!(session.record(reading(40, true, 3, 0), "c".to_string()), None);
    assert_eq!(session.record(reading(41, true, 3, 0), "same time".to_string()), None);
    assert_eq!(session.record(reading(42, true, 4, 0), "d".to_string()), None);
    assert_eq!(session.record(reading(43, true, 5, 0), "e".to_string()), None);
    let done = session.record(reading(44, false, 6, 0), "end".to_string()).unwrap();
    assert_eq!(done.iter().map(|s| s.raw.as_str()).collect::<Vec<_>>(), vec!["c", "d", "e"]);
    assert_eq!(done[0].data, reading(40, true, 3, 0));
    assert_eq!(session.record(reading(44, false, 7, 0), "after".to_string()), None);
}

#[test]
fn a_full_battery_ends_the_session() {
    assert_eq!((MIN_SESSION, FULL_LEVEL), (3, 100));
    let mut session = ChargingSession::new();
    for at in 0..4 {
        assert_eq!(session.record(reading(96 + at as i32, true, at, 0), String::new()), None);
    }
    let done = session.record(reading(100, true, 4, 0), String::new()).unwrap();
    assert_eq!(done.len(), 4);
    assert_eq!(session.record(reading(100, true, 5, 0), String::new()), None);
    assert_eq!(session.record(reading(99, false, 6, 0), String::new()), None);
}

#[test]
fn a_session_of_two_readings_is_dropped() {
    let mut session = ChargingSession::new();
    session.record(reading(40, true, 1, 0), String::new());
    session.record(reading(41, true, 2, 0), String::new());
    assert_eq!(session.record(reading(41, false, 3, 0), String::new()), None);
    session.record(reading(42, true, 4, 0), String::new());
    session.record(reading(43, true, 5, 0), String::new());
    session.record(reading(44, true, 6, 0), String::new());
    assert_eq!(session.record(reading(44, false, 7, 0), String::new()).unwrap().len(), 3);
}
