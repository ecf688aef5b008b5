use tpower::de::{IORegistry, PowerTelemetryData};
use tpower::device::{
    on_snapshot, ActiveDevice, AttachError, DeviceCommand, DeviceMessage, DeviceSessions, DeviceState,
    Interfaces, PollRequest,
};
use tpower::event::DeviceEvent;
use tpower::ffi::wrapper::{
    prepare_device, release, start_service, Device, DeviceError, PrepareStage, PrepareStep, ReleaseStep,
    ServiceConnection, ServiceError, DIAGNOSTICS_SERVICE,
};
use tpower::ffi::{Action, InterfaceType};
use tpower::provider::remote::DeviceDataError;
use tpower::provider::NormalizedResource;

fn device(handle: usize, udid: &str, interface: InterfaceType) -> Device {
    Device::new(handle, udid.to_string(), interface)
}

fn phone() -> Device {
    device(0x1000, "00008101-000A", InterfaceType::USB)
}

fn tablet() -> Device {
    device(0x2000, "00008103-000B", InterfaceType::WiFi)
}

fn attach(sessions: &mut DeviceSessions, d: &Device, channel: usize) -> Vec<DeviceCommand> {
    let commands = sessions.on_message(DeviceMessage { device: d.clone(), action: Action::Attached });
    assert_eq!(commands, vec![DeviceCommand::Prepare(d.clone())]);
    sessions.on_prepared(d.clone(), "a name".to_string(), Ok(ServiceConnection(channel)))
}

fn run(answers: [i32; 5]) -> (Vec<PrepareStage>, PrepareStep) {
    let mut calls = Vec::new();
    let mut step = prepare_device();
    while let PrepareStep::Call(stage) = step {
        calls.push(stage);
        let status = match stage {
            PrepareStage::Connect => answers[0],
            PrepareStage::IsPaired => answers[1],
            PrepareStage::Pair => answers[2],
            PrepareStage::ValidatePairing => answers[3],
            PrepareStage::StartSession => answers[4],
        };
        step = stage.next(status);
    }
    (calls, step)
}

#[test]
fn a_paired_device_is_prepared_in_four_calls() {
    let (calls, end) = run([0, 1, 99, 0, 0]);
    assert_eq!(
        calls,
        vec![PrepareStage::Connect, PrepareStage::IsPaired, PrepareStage::ValidatePairing, PrepareStage::StartSession]
    );
    assert_eq!(end, PrepareStep::Ready);
}

#[test]
fn a_device_that_is_not_paired_is_paired_first() {
    let (calls, end) = run([0, 0, 0, 0, 0]);
    assert_eq!(
        calls,
        vec![
            PrepareStage::Connect,
            PrepareStage::IsPaired,
            PrepareStage::Pair,
            PrepareStage::ValidatePairing,
            PrepareStage::StartSession
        ]
    );
    assert_eq!(end, PrepareStep::Ready);
    assert_eq!(run([0, 2, 0, 0, 0]).0.len(), 5);
}

#[test]
fn the_first_stage_that_fails_ends_the_preparation() {
    assert_eq!(run([-5, 1, 0, 0, 0]), (vec![PrepareStage::Connect], PrepareStep::Failed(DeviceError::Connect(-5))));
    assert_eq!(
        run([0, 0, 7, 0, 0]),
        (
            vec![PrepareStage::Connect, PrepareStage::IsPaired, PrepareStage::Pair],
            PrepareStep::Failed(DeviceError::Pair(7))
        )
    );
    assert_eq!(run([0, 1, 7, 3, 0]).1, PrepareStep::Failed(DeviceError::Validate(3)));
    assert_eq!(run([0, 1, 7, 3, 0]).0.len(), 3);
    assert_eq!(run([0, 1, 0, 0, -1]).1, PrepareStep::Failed(DeviceError::Session(-1)));
    assert_eq!(run([1, 0, 2, 3, 4]).1, PrepareStep::Failed(DeviceError::Connect(1)));
}

#[test]
fn a_service_that_does_not_open_is_an_error_and_no_crash() {
    assert_eq!(start_service(0, 0xabc), Ok(ServiceConnection(0xabc)));
    assert_eq!(start_service(-402653052, 0), Err(ServiceError(-402653052)));
    assert_eq!(DIAGNOSTICS_SERVICE, "com.apple.mobile.diagnostics_relay");
}

#[test]
fn a_device_is_let_go_channel_first() {
    assert_eq!(
        release(&phone(), Some(ServiceConnection(9))),
        vec![ReleaseStep::CloseService(9), ReleaseStep::StopSession(0x1000), ReleaseStep::Disconnect(0x1000)]
    );
    assert_eq!(release(&phone(), None), vec![ReleaseStep::StopSession(0x1000), ReleaseStep::Disconnect(0x1000)]);
}

#[test]
fn an_attached_device_enters_the_table_once_it_is_prepared() {
    let mut sessions = DeviceSessions::new();
    assert!(sessions.on_tick().is_empty());
    let commands = attach(&mut sessions, &phone(), 11);
    assert_eq!(
        commands,
        vec![DeviceCommand::Emit(DeviceEvent {
            udid: "00008101-000A".to_string(),
            name: "a name".to_string(),
            interface: InterfaceType::USB,
            action: Action::Attached,
        })]
    );
    assert_eq!(
        sessions.on_tick(),
        vec![PollRequest { udid: "00008101-000A".to_string(), channel: ServiceConnection(11) }]
    );
}

#[test]
fn an_attach_followed_at_once_by_a_detach_leaves_no_entry() {
    let mut sessions = DeviceSessions::new();
    let d = phone();
    let first = sessions.on_message(DeviceMessage { device: d.clone(), action: Action::Attached });
    assert_eq!(first, vec![DeviceCommand::Prepare(d.clone())]);
    let second = sessions.on_message(DeviceMessage { device: d.clone(), action: Action::Detached });
    assert_eq!(
        second,
        vec![DeviceCommand::Emit(DeviceEvent {
            udid: d.udid.clone(),
            name: String::new(),
            interface: InterfaceType::USB,
            action: Action::Detached,
        })]
    );
    assert!(sessions.on_tick().is_empty());
    let late = sessions.on_prepared(d.clone(), "late".to_string(), Ok(ServiceConnection(5)));
    assert_eq!(
        late,
        vec![
            DeviceCommand::Release(ReleaseStep::CloseService(5)),
            DeviceCommand::Release(ReleaseStep::StopSession(0x1000)),
            DeviceCommand::Release(ReleaseStep::Disconnect(0x1000)),
        ]
    );
    assert!(sessions.on_tick().is_empty());
    assert!(sessions.shutdown().is_empty());
    let again = sessions.on_prepared(d, "late".to_string(), Err(AttachError::Prepare(DeviceError::Pair(2))));
    assert_eq!(
        again,
        vec![
            DeviceCommand::Release(ReleaseStep::StopSession(0x1000)),
            DeviceCommand::Release(ReleaseStep::Disconnect(0x1000)),
        ]
    );
    assert!(sessions.on_tick().is_empty());
}

#[test]
fn a_device_that_could_not_be_prepared_is_reported_and_not_registered() {
    let mut sessions = DeviceSessions::new();
    attach(&mut sessions, &tablet(), 3);
    let d = phone();
    sessions.on_message(DeviceMessage { device: d.clone(), action: Action::Attached });
    let commands = sessions.on_prepared(d.clone(), String::new(), Err(AttachError::Prepare(DeviceError::Validate(-7))));
    assert_eq!(
        commands,
        vec![
            DeviceCommand::Report(d.udid.clone(), AttachError::Prepare(DeviceError::Validate(-7))),
            DeviceCommand::Release(ReleaseStep::StopSession(0x1000)),
            DeviceCommand::Release(ReleaseStep::Disconnect(0x1000)),
        ]
    );
    sessions.on_message(DeviceMessage { device: d.clone(), action: Action::Attached });
    let commands = sessions.on_prepared(d.clone(), String::new(), Err(AttachError::Service(ServiceError(4))));
    assert_eq!(commands[0], DeviceCommand::Report(d.udid.clone(), AttachError::Service(ServiceError(4))));
    assert_eq!(sessions.on_tick().len(), 1);
    assert_eq!(sessions.on_tick()[0].udid, tablet().udid);
}

#[test]
fn a_detached_device_leaves_the_table_and_is_released() {
    let mut sessions = DeviceSessions::new();
    attach(&mut sessions, &phone(), 11);
    attach(&mut sessions, &tablet(), 22);
    let commands = sessions.on_message(DeviceMessage { device: phone(), action: Action::Detached });
    assert_eq!(
        commands,
        vec![
            DeviceCommand::Emit(DeviceEvent {
                udid: phone().udid,
                name: String::new(),
                interface: InterfaceType::USB,
                action: Action::Detached,
            }),
            DeviceCommand::Release(ReleaseStep::CloseService(11)),
            DeviceCommand::Release(ReleaseStep::StopSession(0x1000)),
            DeviceCommand::Release(ReleaseStep::Disconnect(0x1000)),
        ]
    );
    assert_eq!(sessions.on_tick(), vec![PollRequest { udid: tablet().udid, channel: ServiceConnection(22) }]);
}

#[test]
fn the_same_identifier_over_another_interface_is_another_device() {
    let mut sessions = DeviceSessions::new();
    let usb = phone();
    let wifi = device(0x1000, "00008101-000A", InterfaceType::WiFi);
    attach(&mut sessions, &usb, 1);
    attach(&mut sessions, &wifi, 2);
    assert_eq!(sessions.on_tick().len(), 2);
    sessions.on_message(DeviceMessage { device: wifi, action: Action::Detached });
    assert_eq!(sessions.on_tick(), vec![PollRequest { udid: usb.udid.clone(), channel: ServiceConnection(1) }]);
    assert!(usb.is_same(&phone()));
    assert!(!usb.is_same(&tablet()));
}

#[test]
fn a_device_that_attaches_again_replaces_its_entry() {
    let mut sessions = DeviceSessions::new();
    attach(&mut sessions, &phone(), 1);
    let commands = attach(&mut sessions, &phone(), 2);
    assert_eq!(commands.len(), 4);
    assert_eq!(commands[0], DeviceCommand::Release(ReleaseStep::CloseService(1)));
    assert!(matches!(commands[3], DeviceCommand::Emit(_)));
    assert_eq!(sessions.on_tick(), vec![PollRequest { udid: phone().udid, channel: ServiceConnection(2) }]);
}

#[test]
fn other_notifications_change_nothing() {
    let mut sessions = DeviceSessions::new();
    attach(&mut sessions, &phone(), 1);
    assert!(sessions.on_message(DeviceMessage { device: phone(), action: Action::Paired }).is_empty());
    assert!(sessions.on_message(DeviceMessage { device: phone(), action: Action::NotificationStopped }).is_empty());
    assert_eq!(sessions.on_tick().len(), 1);
}

#[test]
fn shutdown_releases_every_device_channel_first() {
    let mut sessions = DeviceSessions::new();
    attach(&mut sessions, &phone(), 11);
    attach(&mut sessions, &tablet(), 22);
    sessions.on_message(DeviceMessage { device: device(3, "x", InterfaceType::Unknown), action: Action::Attached });
    assert_eq!(
        sessions.shutdown(),
        vec![
            ReleaseStep::CloseService(11),
            ReleaseStep::StopSession(0x1000),
            ReleaseStep::Disconnect(0x1000),
            ReleaseStep::CloseService(22),
            ReleaseStep::StopSession(0x2000),
            ReleaseStep::Disconnect(0x2000),
        ]
    );
    assert!(sessions.on_tick().is_empty());
    assert!(sessions.shutdown().is_empty());
}

#[test]
fn a_reply_becomes_the_metrics_of_its_device_and_a_failure_nothing() {
    let io = IORegistry {
        power_telemetry_data: Some(PowerTelemetryData { system_power_in: 15_000, ..PowerTelemetryData::default() }),
        ..IORegistry::default()
    };
    let event = on_snapshot("u1".to_string(), Ok(io.clone())).unwrap();
    assert_eq!(event.udid, "u1");
    assert_eq!(event.data, NormalizedResource::from_registry(&io));
    assert_eq!(event.data.data.system_in.raw, 15_000);
    assert_eq!(on_snapshot("u1".to_string(), Err(DeviceDataError::Send(1))), None);
    assert_eq!(on_snapshot("u1".to_string(), Err(DeviceDataError::Receive(-1))), None);
}

#[test]
fn wire_codes_map_to_actions_and_interfaces() {
    assert_eq!(Action::from_code(1), Some(Action::Attached));
    assert_eq!(Action::from_code(2), Some(Action::Detached));
    assert_eq!(Action::from_code(3), Some(Action::NotificationStopped));
    assert_eq!(Action::from_code(4), Some(Action::Paired));
    assert_eq!(Action::from_code(0), None);
    assert_eq!(Action::from_code(5), None);
    for code in 1..=4 {
        assert_eq!(Action::from_code(code).unwrap().code(), code);
    }
    assert_eq!(InterfaceType::from_code(0), InterfaceType::Unknown);
    assert_eq!(InterfaceType::from_code(1), InterfaceType::USB);
    assert_eq!(InterfaceType::from_code(2), InterfaceType::WiFi);
    assert_eq!(InterfaceType::from_code(9), InterfaceType::Unknown);
    assert_eq!(InterfaceType::WiFi.code(), 2);
    let mut d = phone();
    assert_eq!(d.interface_type(InterfaceType::WiFi), InterfaceType::WiFi);
    assert_eq!(d.interface_type, InterfaceType::WiFi);
}

#[test]
fn the_known_devices_follow_the_events() {
    let mut state = DeviceState::new();
    let event = |name: &str, interface, action| DeviceEvent {
        udid: "u1".to_string(),
        name: name.to_string(),
        interface,
        action,
    };
    assert_eq!(state.get_device_name(&"u1".to_string()), None);
    state.apply(&event("phone", InterfaceType::USB, Action::Attached));
    assert_eq!(
        state.get_device_name(&"u1".to_string()),
        Some(("phone".to_string(), Interfaces { unknown: false, usb: true, wifi: false }))
    );
    state.apply(&event("renamed", InterfaceType::WiFi, Action::Attached));
    assert_eq!(
        state.get_device_name(&"u1".to_string()),
        Some(("phone".to_string(), Interfaces { unknown: false, usb: true, wifi: true }))
    );
    state.apply(&event("", InterfaceType::USB, Action::Detached));
    state.apply(&event("", InterfaceType::USB, Action::Paired));
    assert_eq!(
        state.get_device_name(&"u1".to_string()),
        Some(("phone".to_string(), Interfaces { unknown: false, usb: false, wifi: true }))
    );
    state.apply(&DeviceEvent {
        udid: "u2".to_string(),
        name: String::new(),
        interface: InterfaceType::Unknown,
        action: Action::Detached,
    });
    assert_eq!(state.get_device_name(&"u2".to_string()), Some((String::new(), Interfaces { unknown: false, usb: false, wifi: false })));
    assert_eq!(state.get_device_name(&"u3".to_string()), None);
    let seen = Interfaces { unknown: false, usb: true, wifi: false };
    assert!(seen.contains(InterfaceType::USB));
    assert!(!seen.contains(InterfaceType::WiFi));
    assert!(!seen.contains(InterfaceType::Unknown));
    assert_eq!(seen.apply(InterfaceType::WiFi, Action::Attached).apply(InterfaceType::USB, Action::Detached),
        Interfaces { unknown: false, usb: false, wifi: true });
    let entry = ActiveDevice { device: phone(), channel: ServiceConnection(1) };
    assert_eq!(entry.clone(), entry);
}
