//! Deciding when a user-visible alert is due: on a door's open/closed
//! transition, and on every online/offline report. Presenting the alert is
//! left to the caller.
use vstd::prelude::*;
use crate::json::{get2, read_bool, Json};
use crate::keyed::{find, find_value, lemma_find_upserted, upsert_entry, upserted};
use crate::render::open_reading;

verus! {

/// An alert to present to the user.
#[derive(Debug)]
pub struct Alert {
    pub summary: String,
    pub body: String,
}

/// The last observed open/closed state of each door, by door key. Entries
/// are made on first observation and never removed.
pub struct DoorHistory {
    entries: Vec<(String, bool)>,
}

/// The key a door is tracked under: its identifier, a colon, and its display
/// name (empty when it has none).
pub open spec fn door_key(id: Seq<char>, name: Option<Seq<char>>) -> Seq<char> {
    id + ":"@ + match name {
        Some(n) => n,
        None => Seq::empty(),
    }
}

/// The alert for a door that is now open or closed.
pub open spec fn door_alert(name: Option<Seq<char>>, open: bool) -> (Seq<char>, Seq<char>) {
    (
        "Door Status Changed: "@ + match name {
            Some(n) => n,
            None => "Unnamed Door"@,
        },
        "The door is now "@ + if open {
            "Open"@
        } else {
            "Closed"@
        },
    )
}

/// The alert for a device that reports itself online or offline.
pub open spec fn online_alert(id: Seq<char>, online: bool) -> (Seq<char>, Seq<char>) {
    (
        "Device Status Changed: "@ + id,
        "The device is now "@ + if online {
            "Online"@
        } else {
            "Offline"@
        },
    )
}

impl DoorHistory {
    /// The last state recorded under `key`.
    pub closed spec fn state_of(&self, key: Seq<char>) -> Option<bool> {
        find(self.entries@, key)
    }

    /// A history with no door in it.
    pub fn new() -> (r: DoorHistory)
        ensures
            forall|k: Seq<char>| r.state_of(k) is None,
    {
        DoorHistory { entries: Vec::new() }
    }

    /// The last state recorded under `key`.
    pub fn last_state(&self, key: &str) -> (r: Option<bool>)
        ensures
            r == self.state_of(key@),
    {
        match find_value(&self.entries, key) {
            Some(v) => Some(*v),
            None => None,
        }
    }

    /// Records `open` under `key`, replacing what was there.
    pub fn record(&mut self, key: String, open: bool)
        ensures
            forall|k: Seq<char>|
                final(self).state_of(k) == if k == key@ {
                    Some(open)
                } else {
                    old(self).state_of(k)
                },
    {
        proof {
            assert forall|k: Seq<char>|
                find(upserted(self.entries@, (key, open)), k) == if k == key@ {
                    Some(open)
                } else {
                    find(self.entries@, k)
                } by {
                lemma_find_upserted(self.entries@, (key, open), k);
            }
        }
        upsert_entry(&mut self.entries, key, open);
    }
}

/// The key a door is tracked under.
pub fn door_key_of(id: &str, name: Option<&str>) -> (r: String)
    ensures
        r@ == door_key(id@, opt_view(name)),
{
    let mut key = String::from_str(id);
    key.append(":");
    match name {
        Some(n) => key.append(n),
        None => {
            proof {
                assert(key@ =~= key@ + Seq::<char>::empty());
            }
        },
    }
    key
}

/// The text an optional name holds.
pub open spec fn opt_view(name: Option<&str>) -> Option<Seq<char>> {
    match name {
        Some(n) => Some(n@),
        None => None,
    }
}

/// Whether `after` is `before` with `open` recorded under `key`, and `alert`
/// is due exactly when a different state was recorded there before.
pub open spec fn door_observed(
    before: DoorHistory,
    after: DoorHistory,
    key: Seq<char>,
    open: bool,
    name: Option<Seq<char>>,
    alert: Option<Alert>,
) -> bool {
    &&& forall|k: Seq<char>|
        after.state_of(k) == if k == key {
            Some(open)
        } else {
            before.state_of(k)
        }
    &&& (alert is Some <==> (before.state_of(key) matches Some(prev) && prev != open))
    &&& alert matches Some(a) ==> alert_reads(a, door_alert(name, open))
}

/// Observing a door in the state already recorded for it is idempotent: no
/// alert is due, and the history records the same states as before.
pub proof fn lemma_repeated_door_state_is_quiet(
    before: DoorHistory,
    after: DoorHistory,
    key: Seq<char>,
    open: bool,
    name: Option<Seq<char>>,
    alert: Option<Alert>,
)
    requires
        door_observed(before, after, key, open, name, alert),
        before.state_of(key) == Some(open),
    ensures
        alert is None,
        same_history(before, after),
{
}

/// Whether two histories record the same states.
pub open spec fn same_history(a: DoorHistory, b: DoorHistory) -> bool {
    forall|k: Seq<char>| a.state_of(k) == b.state_of(k)
}

/// Whether the text of an alert is `texts`.
pub open spec fn alert_reads(a: Alert, texts: (Seq<char>, Seq<char>)) -> bool {
    a.summary@ == texts.0 && a.body@ == texts.1
}

/// Observes a door's state from its status payload. An alert is due when a
/// state was recorded before and differs from the new one; the new state is
/// recorded in every case.
pub fn handle_door_status(
    device_id: &str,
    device_name: Option<&str>,
    status: &Json,
    history: &mut DoorHistory,
) -> (r: Option<Alert>)
    ensures
        door_observed(
            *old(history),
            *final(history),
            door_key(device_id@, opt_view(device_name)),
            open_reading(*status),
            opt_view(device_name),
            r,
        ),
{
    let open = read_bool(get2(status, "window:0", "open"));
    let key = door_key_of(device_id, device_name);
    let alert = match history.last_state(key.as_str()) {
        Some(prev) => if prev != open {
            Some(door_alert_of(device_name, open))
        } else {
            None
        },
        None => None,
    };
    history.record(key, open);
    alert
}

fn door_alert_of(name: Option<&str>, open: bool) -> (r: Alert)
    ensures
        alert_reads(r, door_alert(opt_view(name), open)),
{
    let mut summary = String::from_str("Door Status Changed: ");
    match name {
        Some(n) => summary.append(n),
        None => summary.append("Unnamed Door"),
    }
    let mut body = String::from_str("The door is now ");
    if open {
        body.append("Open");
    } else {
        body.append("Closed");
    }
    Alert { summary, body }
}

/// Observes a device's online flag. An alert is due on every observation,
/// repeated identical ones included.
pub fn on_online_observation(device_id: &str, online: bool) -> (r: Alert)
    ensures
        alert_reads(r, online_alert(device_id@, online)),
{
    let mut summary = String::from_str("Device Status Changed: ");
    summary.append(device_id);
    let mut body = String::from_str("The device is now ");
    if online {
        body.append("Online");
    } else {
        body.append("Offline");
    }
    Alert { summary, body }
}

} // verus!
