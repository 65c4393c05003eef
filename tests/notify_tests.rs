use shelly_waybar::json::{Json, Number};
use shelly_waybar::notify::{door_key_of, handle_door_status, on_online_observation, DoorHistory};

fn obj(members: Vec<(&str, Json)>) -> Json {
    Json::Object(members.into_iter().map(|(k, v)| (k.to_string(), v)).collect())
}

fn door(open: bool) -> Json {
    obj(vec![("window:0", obj(vec![("open", Json::Bool(open))]))])
}

#[test]
fn test_handle_door_status() {
    let mut door_status_map = DoorHistory::new();
    let device_status_open = door(true);
    let device_status_closed = door(false);

    let device_id = "door-12345";
    let device_name = Some("Front Door");
    let key = format!("{}:{}", device_id, device_name.unwrap());

    // First observation: nothing recorded before, so no transition to report.
    let notification =
        handle_door_status(device_id, device_name, &device_status_open, &mut door_status_map);
    assert!(notification.is_none());
    assert_eq!(door_status_map.last_state(&key), Some(true));

    // Open to closed is a transition.
    let notification =
        handle_door_status(device_id, device_name, &device_status_closed, &mut door_status_map);
    assert!(notification.is_some());
    assert_eq!(door_status_map.last_state(&key), Some(false));
}

#[test]
fn door_transition_sequence() {
    let mut history = DoorHistory::new();
    let first = handle_door_status("door-12345", Some("Front Door"), &door(true), &mut history);
    assert!(first.is_none());
    assert_eq!(history.last_state("door-12345:Front Door"), Some(true));

    let second = handle_door_status("door-12345", Some("Front Door"), &door(false), &mut history);
    let alert = second.unwrap();
    assert_eq!(alert.summary, "Door Status Changed: Front Door");
    assert_eq!(alert.body, "The door is now Closed");
    assert_eq!(history.last_state("door-12345:Front Door"), Some(false));

    let third = handle_door_status("door-12345", Some("Front Door"), &door(false), &mut history);
    assert!(third.is_none());
    assert_eq!(history.last_state("door-12345:Front Door"), Some(false));
}

#[test]
fn unnamed_door_alert_and_separate_keys() {
    let mut history = DoorHistory::new();
    assert!(handle_door_status("d1", None, &door(false), &mut history).is_none());
    assert!(handle_door_status("d2", None, &door(true), &mut history).is_none());
    let alert = handle_door_status("d1", None, &door(true), &mut history).unwrap();
    assert_eq!(alert.summary, "Door Status Changed: Unnamed Door");
    assert_eq!(alert.body, "The door is now Open");
    assert_eq!(history.last_state("d1:"), Some(true));
    assert_eq!(history.last_state("d2:"), Some(true));
    assert_eq!(history.last_state("d3:"), None);
}

#[test]
fn missing_open_flag_reads_as_closed() {
    let mut history = DoorHistory::new();
    let no_flag = obj(vec![("window:0", obj(vec![("open", Json::Number(Number::PosInt(1)))]))]);
    assert!(handle_door_status("d", Some("x"), &door(true), &mut history).is_none());
    let alert = handle_door_status("d", Some("x"), &no_flag, &mut history).unwrap();
    assert_eq!(alert.body, "The door is now Closed");
}

#[test]
fn door_key_joins_id_and_name() {
    assert_eq!(door_key_of("door-1", Some("Hall")), "door-1:Hall");
    assert_eq!(door_key_of("door-1", None), "door-1:");
}

#[test]
fn online_alerts_fire_every_time() {
    let a = on_online_observation("plug-7", true);
    let b = on_online_observation("plug-7", true);
    assert_eq!(a.summary, "Device Status Changed: plug-7");
    assert_eq!(a.body, "The device is now Online");
    assert_eq!(b.body, "The device is now Online");
    let c = on_online_observation("plug-7", false);
    assert_eq!(c.body, "The device is now Offline");
}
