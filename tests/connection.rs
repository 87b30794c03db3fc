use yolk_bridge::config::{HidUuid, DEVICE_NAME};
use yolk_bridge::resolve::{find_target, is_target_name, resolve_endpoint, ResolveError, ServiceInfo};
use yolk_bridge::supervisor::{
    EndReason, Event, Operation, Phase, Step, Supervisor, RECONNECT_DELAY_SECS, REPORT_QUEUE_CAPACITY,
    RETRY_DELAY_SECS,
};

fn service(uuid: &str, chars: &[&str]) -> ServiceInfo {
    ServiceInfo { uuid: uuid.to_string(), characteristics: chars.iter().map(|c| c.to_string()).collect() }
}

const HID: &str = "000066d3-0000-1000-8000-00805f9b34fb";
const REPORT: &str = "00002a4d-0000-1000-8000-00805f9b34fb";
const OTHER: &str = "0000180f-0000-1000-8000-00805f9b34fb";

#[test]
fn uuids_are_fixed() {
    let u = HidUuid::new();
    assert_eq!(u.yolk_hid_service_uuid, HID);
    assert_eq!(u.report_uuid, REPORT);
    assert_eq!(u._protocol_mode_uuid, "00002a4e-0000-1000-8000-00805f9b34fb");
    assert_eq!(u._report_map_uuid, "00002a4b-0000-1000-8000-00805f9b34fb");
    assert_eq!(u._control_point_uuid, "00002a4c-0000-1000-8000-00805f9b34fb");
    assert_eq!(DEVICE_NAME, "Yolk-Keyboard");
}

#[test]
fn resolves_service_and_characteristic() {
    let services = vec![service(OTHER, &[REPORT]), service(HID, &[OTHER, REPORT, REPORT])];
    assert_eq!(resolve_endpoint(&services, &HidUuid::new()), Ok((1, 1)));
}

#[test]
fn missing_service_is_reported() {
    let services = vec![service(OTHER, &[REPORT])];
    assert_eq!(resolve_endpoint(&services, &HidUuid::new()), Err(ResolveError::ServiceNotFound));
    assert_eq!(resolve_endpoint(&vec![], &HidUuid::new()), Err(ResolveError::ServiceNotFound));
}

#[test]
fn missing_characteristic_is_reported() {
    let services = vec![service(HID, &[OTHER]), service(HID, &[REPORT])];
    assert_eq!(resolve_endpoint(&services, &HidUuid::new()), Err(ResolveError::CharacteristicNotFound));
}

#[test]
fn target_name_is_a_substring_match() {
    assert!(is_target_name("Yolk-Keyboard"));
    assert!(is_target_name("My Yolk-Keyboard 2"));
    assert!(!is_target_name("Yolk Keyboard"));
    assert!(!is_target_name("yolk-keyboard"));
    assert!(!is_target_name("Yolk-Keyboar"));
    assert!(!is_target_name(""));
}

#[test]
fn first_matching_peripheral_is_chosen() {
    let names = vec![None, Some("Mouse".to_string()), Some("Yolk-Keyboard L".to_string()), Some("Yolk-Keyboard R".to_string())];
    assert_eq!(find_target(&names), Some(2));
    let none = vec![None, Some("Speaker".to_string())];
    assert_eq!(find_target(&none), None);
}

fn drive_to_active() -> Supervisor {
    let (mut s, first) = Supervisor::new();
    assert_eq!(first, Step { delay_secs: 0, op: Operation::CreateKeyboard });
    assert_eq!(s.on_event(Event::Succeeded), Step { delay_secs: 0, op: Operation::Scan });
    assert_eq!(s.on_event(Event::Succeeded), Step { delay_secs: 0, op: Operation::Connect });
    assert_eq!(s.on_event(Event::Succeeded), Step { delay_secs: 0, op: Operation::ResolveServices });
    assert_eq!(s.on_event(Event::Succeeded), Step { delay_secs: 0, op: Operation::Subscribe });
    assert_eq!(s.on_event(Event::Succeeded), Step { delay_secs: 0, op: Operation::Relay });
    assert_eq!(s.phase(), Phase::Active);
    s
}

#[test]
fn full_queue_tears_down_and_reconnects() {
    assert_eq!(REPORT_QUEUE_CAPACITY, 128);
    let mut s = drive_to_active();
    assert_eq!(s.on_event(Event::Ended(EndReason::QueueFull)), Step { delay_secs: 0, op: Operation::Disconnect });
    assert_eq!(s.phase(), Phase::Disconnected);
    let next = s.on_event(Event::Succeeded);
    assert_eq!(next, Step { delay_secs: RECONNECT_DELAY_SECS, op: Operation::CreateKeyboard });
    assert_eq!(next.delay_secs, 2);
    assert_eq!(s.phase(), Phase::CreatingKeyboard);
}

#[test]
fn link_loss_tears_down_even_if_disconnect_fails() {
    let mut s = drive_to_active();
    assert_eq!(s.on_event(Event::Ended(EndReason::LinkLost)).op, Operation::Disconnect);
    assert_eq!(s.on_event(Event::Failed), Step { delay_secs: 2, op: Operation::CreateKeyboard });
}

#[test]
fn keyboard_creation_failure_retries_after_delay() {
    let (mut s, _) = Supervisor::new();
    assert_eq!(s.on_event(Event::Failed), Step { delay_secs: RETRY_DELAY_SECS, op: Operation::CreateKeyboard });
    assert_eq!(RETRY_DELAY_SECS, 5);
    assert_eq!(s.phase(), Phase::CreatingKeyboard);
}

#[test]
fn missed_scan_rescans_after_delay() {
    let (mut s, _) = Supervisor::new();
    s.on_event(Event::Succeeded);
    assert_eq!(s.on_event(Event::NotFound), Step { delay_secs: 5, op: Operation::Scan });
    assert_eq!(s.phase(), Phase::Scanning);
}

#[test]
fn connect_failure_restarts_cycle() {
    let (mut s, _) = Supervisor::new();
    s.on_event(Event::Succeeded);
    s.on_event(Event::Succeeded);
    assert_eq!(s.on_event(Event::Failed), Step { delay_secs: 5, op: Operation::CreateKeyboard });
}

#[test]
fn resolve_or_subscribe_failure_disconnects() {
    let (mut s, _) = Supervisor::new();
    for _ in 0..3 {
        s.on_event(Event::Succeeded);
    }
    assert_eq!(s.phase(), Phase::ResolvingServices);
    assert_eq!(s.on_event(Event::Failed), Step { delay_secs: 0, op: Operation::Disconnect });
    let (mut t, _) = Supervisor::new();
    for _ in 0..4 {
        t.on_event(Event::Succeeded);
    }
    assert_eq!(t.on_event(Event::Failed), Step { delay_secs: 0, op: Operation::Disconnect });
    assert_eq!(t.on_event(Event::Succeeded), Step { delay_secs: 2, op: Operation::CreateKeyboard });
}
