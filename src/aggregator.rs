//! The decisions of the two producers that feed the status table: the
//! periodic poll, which renders each configured device's fetched status,
//! and the push feed, whose events update single devices as they change.
use vstd::prelude::*;
use crate::device::{classified_kind, classify, DeviceKind, OutputFormat, TempUnit};
use crate::json::{member, str_of, Json, Number};
use crate::keyed::{find_value, take_value, upserted};
use crate::notify::{
    alert_reads, door_key, door_observed, handle_door_status, on_online_observation,
    online_alert, opt_view, same_history, Alert, DoorHistory,
};
use crate::render::{named, open_reading, render, rendered, shows, with_name, Fragment};
use crate::table::{with_online, StatusEntry, StatusTable};
use crate::text::str_eq;

verus! {

/// A configured device: its declared type (empty to autodetect), its
/// identifier, and its display name, if any.
#[derive(Debug)]
pub struct DeviceSpec {
    pub declared: String,
    pub id: String,
    pub name: Option<String>,
}

/// What processing one device's status gives: its fragment, and an alert
/// when one is due.
#[derive(Debug)]
pub struct DeviceUpdate {
    pub fragment: Fragment,
    pub alert: Option<Alert>,
}

/// The text an optional owned name holds.
pub open spec fn name_view(name: Option<String>) -> Option<Seq<char>> {
    match name {
        Some(n) => Some(n@),
        None => None,
    }
}

/// A fragment with the device's display name added, when it has one.
pub open spec fn decorated(f: (Seq<char>, Seq<char>), name: Option<Seq<char>>) -> (
    Seq<char>,
    Seq<char>,
) {
    match name {
        Some(n) => named(f.0, f.1, n),
        None => f,
    }
}

/// Whether `r`, with the door history going from `before` to `after`, is
/// what processing a device's status gives. A device of no known kind gives
/// nothing. Otherwise its status is rendered and named; a door's state is
/// observed, which may call for an alert; other kinds leave the history as
/// it was.
pub open spec fn processed(
    declared: Seq<char>,
    id: Seq<char>,
    name: Option<Seq<char>>,
    status: Json,
    format: OutputFormat,
    unit: TempUnit,
    before: DoorHistory,
    after: DoorHistory,
    r: Option<DeviceUpdate>,
) -> bool {
    match classified_kind(status, declared) {
        None => r is None && same_history(before, after),
        Some(kind) => r matches Some(u) && {
            let f = decorated(rendered(kind, status, format, unit), name);
            &&& shows(u.fragment, f.0, f.1)
            &&& if kind == DeviceKind::Door {
                door_observed(before, after, door_key(id, name), open_reading(status), name, u.alert)
            } else {
                same_history(before, after) && u.alert is None
            }
        },
    }
}

/// Processes one device's fetched status: classifies, renders and names it,
/// and tracks a door's transitions.
pub fn process_device(
    declared: &str,
    device_id: &str,
    device_name: Option<&str>,
    status: &Json,
    format: OutputFormat,
    unit: TempUnit,
    history: &mut DoorHistory,
) -> (r: Option<DeviceUpdate>)
    ensures
        processed(
            declared@,
            device_id@,
            opt_view(device_name),
            *status,
            format,
            unit,
            *old(history),
            *final(history),
            r,
        ),
{
    let kind = match classify(status, declared) {
        Some(k) => k,
        None => return None,
    };
    let alert = match kind {
        DeviceKind::Door => handle_door_status(device_id, device_name, status, history),
        _ => None,
    };
    let fragment = render(kind, status, format, unit);
    let fragment = match device_name {
        Some(n) => with_name(fragment, n),
        None => fragment,
    };
    Some(DeviceUpdate { fragment, alert })
}

/// Processes one device's status as `process_device` does and, when the
/// device's kind is known, replaces its table entry with the result. This
/// is the step both producers take for a fresh status.
pub fn apply_status(
    declared: &str,
    device_id: String,
    device_name: Option<&str>,
    status: &Json,
    format: OutputFormat,
    unit: TempUnit,
    table: &mut StatusTable,
    history: &mut DoorHistory,
) -> (r: Option<DeviceUpdate>)
    requires
        old(table).wf(),
    ensures
        final(table).wf(),
        processed(
            declared@,
            device_id@,
            opt_view(device_name),
            *status,
            format,
            unit,
            *old(history),
            *final(history),
            r,
        ),
        match r {
            Some(u) => final(table).entries() == upserted(
                old(table).entries(),
                (device_id, StatusEntry { fragment: Some(u.fragment), online: None }),
            ),
            None => final(table).entries() == old(table).entries(),
        },
{
    match process_device(declared, device_id.as_str(), device_name, status, format, unit, history) {
        Some(u) => {
            let entry = StatusEntry { fragment: Some(u.fragment.duplicate()), online: None };
            table.upsert(device_id, entry);
            Some(u)
        },
        None => None,
    }
}

/// The first configured device with identifier `id`.
pub open spec fn configured(devices: Seq<DeviceSpec>, id: Seq<char>) -> Option<DeviceSpec>
    decreases devices.len(),
{
    if devices.len() == 0 {
        None
    } else if devices[0].id@ == id {
        Some(devices[0])
    } else {
        configured(devices.drop_first(), id)
    }
}

/// The position of the first configured device with identifier `id`.
pub fn find_device(devices: &Vec<DeviceSpec>, id: &str) -> (r: Option<usize>)
    ensures
        match r {
            Some(i) => i < devices@.len() && configured(devices@, id@) == Some(devices@[i as int]),
            None => configured(devices@, id@) is None,
        },
{
    let mut i: usize = 0;
    assert(devices@.subrange(0, devices@.len() as int) =~= devices@);
    while i < devices.len()
        invariant
            i <= devices@.len(),
            configured(devices@, id@) == configured(
                devices@.subrange(i as int, devices@.len() as int),
                id@,
            ),
        decreases devices@.len() - i,
    {
        let ghost rest = devices@.subrange(i as int, devices@.len() as int);
        assert(rest.drop_first() =~= devices@.subrange(i + 1, devices@.len() as int));
        assert(rest[0] == devices@[i as int]);
        if str_eq(devices[i].id.as_str(), id) {
            return Some(i);
        }
        i = i + 1;
    }
    None
}

/// An event of the push feed.
#[derive(Debug)]
pub enum PushEvent {
    /// A device's status changed; the event carries the new status.
    StatusChanged { device_id: String, status: Json },
    /// A device went online or offline.
    Online { device_id: String, online: bool },
    /// An event of a kind not acted on.
    Other { name: String },
}

/// The online flag of an event: a boolean, or a number that is not zero.
pub open spec fn online_flag(v: Option<Json>) -> Option<bool> {
    match v {
        Some(Json::Bool(b)) => Some(b),
        Some(Json::Number(Number::PosInt(n))) => Some(n != 0),
        _ => None,
    }
}

/// Whether `r` is the event that message `msg` holds. A message that is
/// not an object with a text "event" member, or whose known event lacks its
/// device identifier or its payload, holds none.
pub open spec fn event_of(msg: Json, r: Option<PushEvent>) -> bool {
    let id = str_of(member(Some(msg), "deviceId"@));
    match str_of(member(Some(msg), "event"@)) {
        None => r is None,
        Some(name) => if name == "Shelly:StatusOnChange"@ {
            match (id, member(Some(msg), "status"@)) {
                (Some(i), Some(s)) => r matches Some(PushEvent::StatusChanged { device_id, status })
                    && device_id@ == i && status == s,
                _ => r is None,
            }
        } else if name == "Shelly:Online"@ {
            match (id, online_flag(member(Some(msg), "online"@))) {
                (Some(i), Some(o)) => r matches Some(PushEvent::Online { device_id, online })
                    && device_id@ == i && online == o,
                _ => r is None,
            }
        } else {
            r matches Some(PushEvent::Other { name: n }) && n@ == name
        },
    }
}

fn text_member(members: &Vec<(String, Json)>, key: &str) -> (r: Option<String>)
    ensures
        match r {
            Some(s) => str_of(crate::keyed::find(members@, key@)) == Some(s@),
            None => str_of(crate::keyed::find(members@, key@)) is None,
        },
{
    match find_value(members, key) {
        Some(Json::Str(s)) => Some(s.clone()),
        _ => None,
    }
}

/// The event a decoded push message holds, if any.
pub fn decode_event(msg: Json) -> (r: Option<PushEvent>)
    ensures
        event_of(msg, r),
{
    let members = match msg {
        Json::Object(members) => members,
        _ => return None,
    };
    let name = match text_member(&members, "event") {
        Some(n) => n,
        None => return None,
    };
    let id = text_member(&members, "deviceId");
    if str_eq(name.as_str(), "Shelly:StatusOnChange") {
        match id {
            Some(device_id) => match take_value(members, "status") {
                Some(status) => Some(PushEvent::StatusChanged { device_id, status }),
                None => None,
            },
            None => None,
        }
    } else if str_eq(name.as_str(), "Shelly:Online") {
        let online = match find_value(&members, "online") {
            Some(Json::Bool(b)) => Some(*b),
            Some(Json::Number(Number::PosInt(n))) => Some(*n != 0),
            _ => None,
        };
        match (id, online) {
            (Some(device_id), Some(online)) => Some(PushEvent::Online { device_id, online }),
            _ => None,
        }
    } else {
        Some(PushEvent::Other { name })
    }
}

/// What handling a push event led to.
#[derive(Debug)]
pub enum EventOutcome {
    /// The device's entry was replaced; an alert may be due.
    Updated(DeviceUpdate),
    /// The device's kind could not be found; nothing changed.
    Unclassified(String),
    /// The device's online flag was set; the alert is due.
    Online(Alert),
    /// The event is of a kind not acted on; nothing changed.
    Unrecognized(String),
}

/// The declared type of a configured device; empty for one not configured.
pub open spec fn declared_of(c: Option<DeviceSpec>) -> Seq<char> {
    match c {
        Some(d) => d.declared@,
        None => Seq::empty(),
    }
}

/// The display name of a configured device, if any.
pub open spec fn name_of(c: Option<DeviceSpec>) -> Option<Seq<char>> {
    match c {
        Some(d) => name_view(d.name),
        None => None,
    }
}

/// Handles one push event: a status change is processed as the poll does,
/// with the device's configured type and name, and replaces the device's
/// entry; an online report sets the device's flag and is always alerted.
pub fn handle_event(
    event: PushEvent,
    devices: &Vec<DeviceSpec>,
    table: &mut StatusTable,
    history: &mut DoorHistory,
    format: OutputFormat,
    unit: TempUnit,
) -> (r: EventOutcome)
    requires
        old(table).wf(),
    ensures
        final(table).wf(),
        match event {
            PushEvent::StatusChanged { device_id, status } => {
                let c = configured(devices@, device_id@);
                match r {
                    EventOutcome::Updated(u) => {
                        &&& processed(
                            declared_of(c),
                            device_id@,
                            name_of(c),
                            status,
                            format,
                            unit,
                            *old(history),
                            *final(history),
                            Some(u),
                        )
                        &&& final(table).entries() == upserted(
                            old(table).entries(),
                            (device_id, StatusEntry { fragment: Some(u.fragment), online: None }),
                        )
                    },
                    EventOutcome::Unclassified(i) => {
                        &&& i@ == device_id@
                        &&& processed(
                            declared_of(c),
                            device_id@,
                            name_of(c),
                            status,
                            format,
                            unit,
                            *old(history),
                            *final(history),
                            None,
                        )
                        &&& final(table).entries() == old(table).entries()
                    },
                    _ => false,
                }
            },
            PushEvent::Online { device_id, online } => {
                &&& r matches EventOutcome::Online(a) && alert_reads(
                    a,
                    online_alert(device_id@, online),
                )
                &&& final(table).entries() == upserted(
                    old(table).entries(),
                    (device_id, with_online(old(table).entry(device_id@), online)),
                )
                &&& same_history(*old(history), *final(history))
            },
            PushEvent::Other { name } => {
                &&& r matches EventOutcome::Unrecognized(n) && n@ == name@
                &&& final(table).entries() == old(table).entries()
                &&& same_history(*old(history), *final(history))
            },
        },
{
    match event {
        PushEvent::StatusChanged { device_id, status } => {
            let found = find_device(devices, device_id.as_str());
            let (declared, name): (&str, Option<&str>) = match found {
                Some(i) => (
                    devices[i].declared.as_str(),
                    match &devices[i].name {
                        Some(n) => Some(n.as_str()),
                        None => None,
                    },
                ),
                None => ("", None),
            };
            proof {
                reveal_strlit("");
            }
            let id_text = device_id.clone();
            match apply_status(declared, device_id, name, &status, format, unit, table, history) {
                Some(u) => EventOutcome::Updated(u),
                None => EventOutcome::Unclassified(id_text),
            }
        },
        PushEvent::Online { device_id, online } => {
            let alert = on_online_observation(device_id.as_str(), online);
            table.merge_field(device_id, online);
            EventOutcome::Online(alert)
        },
        PushEvent::Other { name } => EventOutcome::Unrecognized(name),
    }
}

} // verus!
