use tpower::de::{IORegistry, PowerTelemetryData};
use tpower::ffi::smc::SMCPowerData;
use tpower::ffi::InterfaceType;
use tpower::milli::{Dyadic, Milli};
use tpower::provider::local::LocalResource;
use tpower::provider::remote::RemoteResource;
use tpower::provider::{MergedPowerData, PowerDataFrom, PowerResource, Resource};

fn milli(v: f64) -> Milli {
    Milli { raw: (v * 1000.0).round() as i64 }
}

fn sensor(v: f32) -> Dyadic {
    Dyadic::from_f32_bits(v.to_bits()).unwrap()
}

fn sensors() -> SMCPowerData {
    SMCPowerData {
        battery_rate: sensor(1.5),
        delivery_rate: sensor(5.0),
        system_total: sensor(3.0),
        brightness: sensor(0.75),
        full_charge_capacity: sensor(4000.0),
        current_capacity: sensor(3000.0),
        charging_status: sensor(1.0),
        time_to_empty: sensor(120.0),
        time_to_full: sensor(45.0),
        temperature: sensor(30.5),
        ..SMCPowerData::default()
    }
}

fn registry(at: i64) -> IORegistry {
    IORegistry {
        power_telemetry_data: Some(PowerTelemetryData {
            adapter_efficiency_loss: 500,
            battery_power: 3000,
            system_load: 9000,
            system_power_in: 15_000,
            ..PowerTelemetryData::default()
        }),
        apple_raw_current_capacity: 1000,
        apple_raw_max_capacity: 4000,
        is_charging: true,
        temperature: 2950,
        time_remaining: 10,
        update_time: at,
        ..IORegistry::default()
    }
}

fn local_data(at: i64) -> MergedPowerData {
    MergedPowerData { from: PowerDataFrom::Local, smc: Some(sensors()), ioreg: registry(at) }
}

#[test]
fn the_host_reports_its_sensors_in_milliwatts() {
    let mut host = LocalResource::new("host".to_string());
    host.efficiency_loss = milli(250.0);
    host.update(local_data(0));
    assert_eq!(host.name(), "host");
    assert_eq!(host.system_in(), milli(5000.0));
    assert_eq!(host.system_load(), milli(3000.0));
    assert_eq!(host.battery_power(), milli(1500.0));
    assert_eq!(host.adapter_power(), milli(5250.0));
    assert_eq!(host.brightness_power(), milli(0.75));
    assert_eq!(host.absolute_battery_level(), milli(75.0));
    assert_eq!(host.temperature(), milli(30.5));
    assert_eq!(host.time_remain(), 45 * 60 * 1000);
    assert!(host.is_charging());
    assert!(host.is_local());
    assert_eq!(host.smc(), Some(&sensors()));
    assert_eq!(host.raw_data(), &registry(0));
    assert_eq!(host.last_update(), 0);
}

#[test]
fn a_newer_snapshot_only_moves_the_time_of_the_host_on() {
    let mut host = LocalResource::new("host".to_string());
    host.update(local_data(50));
    assert_eq!(host.last_update, 50);
    assert_eq!(host.last_update(), 50);
    assert_eq!(host.raw_data(), &IORegistry::default());
    assert_eq!(host.data, sensors());
    assert!(host.statistic.system_history.is_empty());
    host.update(local_data(50));
    assert_eq!(host.raw_data(), &registry(50));
    assert_eq!(host.statistic.battery_history.iter().copied().collect::<Vec<_>>(), vec![1500]);
    assert_eq!(host.statistic.input_history.iter().copied().collect::<Vec<_>>(), vec![5000]);
    assert_eq!(host.statistic.system_history.iter().copied().collect::<Vec<_>>(), vec![3000]);
    assert_eq!(host.statistic.max_input_power, milli(5000.0));
    host.update(local_data(40));
    assert_eq!(host.last_update, 50);
    assert_eq!(host.raw_data(), &registry(40));
    assert_eq!(host.statistic.system_history.len(), 2);
}

#[test]
fn a_device_reports_its_telemetry_as_it_stands() {
    let mut device = RemoteResource::new("u1".to_string(), "phone".to_string(), InterfaceType::USB);
    assert_eq!(device.system_in(), milli(0.0));
    assert_eq!(device.adapter_power(), milli(0.0));
    let from = PowerDataFrom::Remote(("u1".to_string(), "phone".to_string(), InterfaceType::USB));
    device.update(MergedPowerData { from, smc: None, ioreg: registry(77) });
    assert_eq!(device.name(), "phone");
    assert_eq!(device.system_in(), milli(15_000.0));
    assert_eq!(device.system_load(), milli(9_000.0));
    assert_eq!(device.battery_power(), milli(3_000.0));
    assert_eq!(device.adapter_power(), milli(15_500.0));
    assert_eq!(device.brightness_power(), milli(0.0));
    assert_eq!(device.absolute_battery_level(), milli(25.0));
    assert_eq!(device.temperature(), milli(29.5));
    assert_eq!(device.time_remain(), 10 * 60 * 1000);
    assert_eq!(device.last_update(), 77);
    assert!(device.is_charging());
    assert!(!device.is_local());
    assert_eq!(device.smc(), None);
    assert_eq!(device.raw_data(), &registry(77));
    assert_eq!(device.statistic.input_history.iter().copied().collect::<Vec<_>>(), vec![15_000]);
    assert_eq!(device.statistic.max_battery_power, milli(3000.0));
}

#[test]
fn a_source_of_either_kind_answers_through_one_interface() {
    let mut sources = vec![
        PowerResource::Local(LocalResource::new("host".to_string())),
        PowerResource::Remote(RemoteResource::new("u1".to_string(), "phone".to_string(), InterfaceType::WiFi)),
    ];
    for source in sources.iter_mut() {
        source.update(local_data(0));
    }
    assert!(sources[0].is_local());
    assert!(!sources[1].is_local());
    assert_eq!(sources[0].system_in(), milli(5000.0));
    assert_eq!(sources[1].system_in(), milli(15_000.0));
    assert_eq!(sources[0].name(), "host");
    assert_eq!(sources[1].name(), "phone");
    assert_eq!(sources[0].smc(), Some(&sensors()));
    assert_eq!(sources[1].smc(), None);
    assert_eq!(sources[0].time_remain(), 45 * 60 * 1000);
    assert_eq!(sources[1].time_remain(), 10 * 60 * 1000);
}
