use shelly_waybar::aggregator::{
    apply_status, decode_event, find_device, handle_event, process_device, DeviceSpec,
    EventOutcome, PushEvent,
};
use shelly_waybar::device::{OutputFormat, TempUnit};
use shelly_waybar::json::{Json, Number};
use shelly_waybar::notify::DoorHistory;
use shelly_waybar::publish::publish;
use shelly_waybar::table::StatusTable;

fn obj(members: Vec<(&str, Json)>) -> Json {
    Json::Object(members.into_iter().map(|(k, v)| (k.to_string(), v)).collect())
}

fn text(s: &str) -> Json {
    Json::Str(s.to_string())
}

fn door(open: bool) -> Json {
    obj(vec![("window:0", obj(vec![("open", Json::Bool(open))]))])
}

fn devices() -> Vec<DeviceSpec> {
    vec![
        DeviceSpec { declared: "door".to_string(), id: "d1".to_string(), name: Some("Front".to_string()) },
        DeviceSpec { declared: String::new(), id: "p1".to_string(), name: None },
    ]
}

#[test]
fn process_device_names_and_tracks_doors() {
    let mut history = DoorHistory::new();
    let u = process_device("door", "d1", Some("Front"), &door(true), OutputFormat::Long, TempUnit::Celsius, &mut history).unwrap();
    assert_eq!(u.fragment.text, "Open, Lux: 0 (Front)");
    assert_eq!(u.fragment.tooltip, "Device: Front\nBattery: 0% RSSI: 0dBm");
    assert!(u.alert.is_none());
    let u = process_device("door", "d1", Some("Front"), &door(false), OutputFormat::Long, TempUnit::Celsius, &mut history).unwrap();
    assert_eq!(u.alert.unwrap().summary, "Door Status Changed: Front");
    // A window is not tracked.
    let u = process_device("window", "w1", None, &door(true), OutputFormat::Short, TempUnit::Celsius, &mut history).unwrap();
    assert_eq!(u.fragment.text, "Open: L: 0, Tilt: 0");
    assert!(u.alert.is_none());
    assert_eq!(history.last_state("w1:"), None);
}

#[test]
fn process_device_skips_unknown_kinds() {
    let mut history = DoorHistory::new();
    assert!(process_device("lamp", "x", None, &door(true), OutputFormat::Short, TempUnit::Celsius, &mut history).is_none());
    assert!(process_device("", "x", None, &obj(vec![]), OutputFormat::Short, TempUnit::Celsius, &mut history).is_none());
    assert_eq!(history.last_state("x:"), None);
}

#[test]
fn find_device_by_id() {
    let list = devices();
    assert_eq!(find_device(&list, "p1"), Some(1));
    assert_eq!(find_device(&list, "zz"), None);
}

#[test]
fn decode_known_and_unknown_events() {
    let msg = obj(vec![
        ("event", text("Shelly:StatusOnChange")),
        ("deviceId", text("p1")),
        ("status", obj(vec![("switch:0", obj(vec![]))])),
    ]);
    match decode_event(msg) {
        Some(PushEvent::StatusChanged { device_id, status }) => {
            assert_eq!(device_id, "p1");
            assert!(status.get("switch:0").is_some());
        }
        other => panic!("unexpected {:?}", other),
    }
    let msg = obj(vec![
        ("event", text("Shelly:Online")),
        ("deviceId", text("p1")),
        ("online", Json::Number(Number::PosInt(0))),
    ]);
    assert!(matches!(decode_event(msg), Some(PushEvent::Online { online: false, .. })));
    let msg = obj(vec![("event", text("Shelly:Heartbeat"))]);
    match decode_event(msg) {
        Some(PushEvent::Other { name }) => assert_eq!(name, "Shelly:Heartbeat"),
        other => panic!("unexpected {:?}", other),
    }
    assert!(decode_event(obj(vec![("deviceId", text("p1"))])).is_none());
    assert!(decode_event(obj(vec![("event", text("Shelly:Online")), ("deviceId", text("p1"))])).is_none());
    assert!(decode_event(Json::Array(vec![])).is_none());
}

#[test]
fn handle_events_update_table_and_alert() {
    let list = devices();
    let mut table = StatusTable::new();
    let mut history = DoorHistory::new();
    let f = OutputFormat::Short;
    let u = TempUnit::Celsius;

    let ev = PushEvent::StatusChanged { device_id: "d1".to_string(), status: door(true) };
    assert!(matches!(handle_event(ev, &list, &mut table, &mut history, f, u), EventOutcome::Updated(_)));
    let ev = PushEvent::StatusChanged { device_id: "d1".to_string(), status: door(false) };
    match handle_event(ev, &list, &mut table, &mut history, f, u) {
        EventOutcome::Updated(update) => assert_eq!(update.alert.unwrap().body, "The door is now Closed"),
        other => panic!("unexpected {:?}", other),
    }
    let ev = PushEvent::StatusChanged { device_id: "p1".to_string(), status: obj(vec![("switch:0", obj(vec![]))]) };
    assert!(matches!(handle_event(ev, &list, &mut table, &mut history, f, u), EventOutcome::Updated(_)));
    let ev = PushEvent::StatusChanged { device_id: "zz".to_string(), status: obj(vec![]) };
    assert!(matches!(handle_event(ev, &list, &mut table, &mut history, f, u), EventOutcome::Unclassified(_)));
    let ev = PushEvent::Online { device_id: "p1".to_string(), online: true };
    match handle_event(ev, &list, &mut table, &mut history, f, u) {
        EventOutcome::Online(alert) => assert_eq!(alert.body, "The device is now Online"),
        other => panic!("unexpected {:?}", other),
    }
    let ev = PushEvent::Other { name: "Shelly:Ping".to_string() };
    assert!(matches!(handle_event(ev, &list, &mut table, &mut history, f, u), EventOutcome::Unrecognized(_)));

    let snap = table.snapshot();
    assert_eq!(snap.len(), 2);
    assert_eq!(snap[1].1.online, Some(true));
    let merged = publish(&snap, " | ").unwrap();
    assert_eq!(merged.text, "Closed: L: 0 (Front) | P: 0.0W V: 0.0V");
    assert_eq!(merged.tooltip, "Device: Front\nB: 0% RSSI: 0dBm\nI: 0.000A RSSI: 0dBm O: OFF");
}

#[test]
fn apply_status_upserts_only_known_kinds() {
    let mut table = StatusTable::new();
    let mut history = DoorHistory::new();
    let plug = obj(vec![("switch:0", obj(vec![("output", Json::Bool(true))]))]);
    let u = apply_status("", "p1".to_string(), Some("Desk"), &plug, OutputFormat::Short, TempUnit::Celsius, &mut table, &mut history);
    assert_eq!(u.unwrap().fragment.text, "P: 0.0W V: 0.0V (Desk)");
    let none = apply_status("heater", "h1".to_string(), None, &plug, OutputFormat::Short, TempUnit::Celsius, &mut table, &mut history);
    assert!(none.is_none());
    let snap = table.snapshot();
    assert_eq!(snap.len(), 1);
    assert_eq!(snap[0].0, "p1");
    assert_eq!(snap[0].1.fragment.as_ref().unwrap().tooltip, "Device: Desk\nI: 0.000A RSSI: 0dBm O: ON");
}
