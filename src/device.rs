//! Device kinds, and how a device's kind is found: from a declared type name
//! or from the marker keys of its status payload.
use vstd::prelude::*;
use crate::json::{member, Json};

verus! {

/// The kinds of device whose status can be rendered.
#[derive(Clone, Copy, Debug, PartialEq, Eq, Structural)]
pub enum DeviceKind {
    Temperature,
    Plug,
    Door,
    Window,
}

/// The text templates a status can be rendered with.
#[derive(Clone, Copy, Debug, PartialEq, Eq, Structural)]
pub enum OutputFormat {
    Short,
    Long,
    Icons,
}

/// The unit a temperature is shown in.
#[derive(Clone, Copy, Debug, PartialEq, Eq, Structural)]
pub enum TempUnit {
    Celsius,
    Fahrenheit,
}

/// A character with ASCII upper-case letters taken to lower case.
pub open spec fn fold_char(c: char) -> u32 {
    if 65 <= c as u32 <= 90 {
        (c as u32 + 32) as u32
    } else {
        c as u32
    }
}

/// Whether two texts are equal when ASCII letter case is ignored.
pub open spec fn same_ignoring_case(a: Seq<char>, b: Seq<char>) -> bool {
    &&& a.len() == b.len()
    &&& forall|i: int| 0 <= i < a.len() ==> fold_char(a[i]) == fold_char(b[i])
}

/// The lower-case name of a kind.
pub open spec fn kind_name(k: DeviceKind) -> Seq<char> {
    match k {
        DeviceKind::Temperature => "temperature"@,
        DeviceKind::Plug => "plug"@,
        DeviceKind::Door => "door"@,
        DeviceKind::Window => "window"@,
    }
}

/// The kind a declared type name stands for, letter case ignored.
pub open spec fn kind_named(s: Seq<char>) -> Option<DeviceKind> {
    if same_ignoring_case(s, "temperature"@) {
        Some(DeviceKind::Temperature)
    } else if same_ignoring_case(s, "plug"@) {
        Some(DeviceKind::Plug)
    } else if same_ignoring_case(s, "door"@) {
        Some(DeviceKind::Door)
    } else if same_ignoring_case(s, "window"@) {
        Some(DeviceKind::Window)
    } else {
        None
    }
}

/// Whether `status` holds a top-level member `key`, of any value.
pub open spec fn has_key(status: Json, key: Seq<char>) -> bool {
    member(Some(status), key).is_some()
}

/// Whether `status` holds a marker key of kind `k`.
pub open spec fn has_marker(status: Json, k: DeviceKind) -> bool {
    match k {
        DeviceKind::Temperature => has_key(status, "temperature:0"@) || has_key(
            status,
            "humidity:0"@,
        ),
        DeviceKind::Plug => has_key(status, "switch:0"@),
        DeviceKind::Door => has_key(status, "window:0"@),
        DeviceKind::Window => has_key(status, "tilt:0"@),
    }
}

/// The kind found from marker keys, first match in a fixed order:
/// temperature, plug, door, window.
pub open spec fn detected_kind(status: Json) -> Option<DeviceKind> {
    if has_marker(status, DeviceKind::Temperature) {
        Some(DeviceKind::Temperature)
    } else if has_marker(status, DeviceKind::Plug) {
        Some(DeviceKind::Plug)
    } else if has_marker(status, DeviceKind::Door) {
        Some(DeviceKind::Door)
    } else if has_marker(status, DeviceKind::Window) {
        Some(DeviceKind::Window)
    } else {
        None
    }
}

/// The kind of a device: its declared type when one is given (an empty
/// declaration gives none), else what its status payload shows.
pub open spec fn classified_kind(status: Json, declared: Seq<char>) -> Option<DeviceKind> {
    if declared.len() == 0 {
        detected_kind(status)
    } else {
        kind_named(declared)
    }
}

/// Whether `a` and `b` are equal when ASCII letter case is ignored.
pub fn eq_ignore_case(a: &str, b: &str) -> (r: bool)
    ensures
        r == same_ignoring_case(a@, b@),
{
    let n = a.unicode_len();
    if n != b.unicode_len() {
        return false;
    }
    let mut i: usize = 0;
    while i < n
        invariant
            n == a@.len() == b@.len(),
            i <= n,
            forall|j: int| 0 <= j < i ==> fold_char(a@[j]) == fold_char(b@[j]),
        decreases n - i,
    {
        let x = a.get_char(i) as u32;
        let y = b.get_char(i) as u32;
        let fx = if 65 <= x && x <= 90 {
            x + 32
        } else {
            x
        };
        let fy = if 65 <= y && y <= 90 {
            y + 32
        } else {
            y
        };
        if fx != fy {
            return false;
        }
        i = i + 1;
    }
    true
}

impl DeviceKind {
    /// The lower-case name of this kind.
    pub fn name(&self) -> (r: &'static str)
        ensures
            r@ == kind_name(*self),
    {
        match self {
            DeviceKind::Temperature => "temperature",
            DeviceKind::Plug => "plug",
            DeviceKind::Door => "door",
            DeviceKind::Window => "window",
        }
    }
}

/// The kind a declared type name stands for, ignoring letter case; `None`
/// for a name outside the known kinds.
pub fn match_device_type(device_type: &str) -> (r: Option<DeviceKind>)
    ensures
        r == kind_named(device_type@),
{
    if eq_ignore_case(device_type, "temperature") {
        Some(DeviceKind::Temperature)
    } else if eq_ignore_case(device_type, "plug") {
        Some(DeviceKind::Plug)
    } else if eq_ignore_case(device_type, "door") {
        Some(DeviceKind::Door)
    } else if eq_ignore_case(device_type, "window") {
        Some(DeviceKind::Window)
    } else {
        None
    }
}

/// The kind shown by the marker keys of a status payload; `None` when it
/// holds none of them.
pub fn autodetect_device_type(status: &Json) -> (r: Option<DeviceKind>)
    ensures
        r == detected_kind(*status),
{
    if status.get("temperature:0").is_some() || status.get("humidity:0").is_some() {
        Some(DeviceKind::Temperature)
    } else if status.get("switch:0").is_some() {
        Some(DeviceKind::Plug)
    } else if status.get("window:0").is_some() {
        Some(DeviceKind::Door)
    } else if status.get("tilt:0").is_some() {
        Some(DeviceKind::Window)
    } else {
        None
    }
}

/// The kind of a device from its declared type name, or, when that is
/// empty, from its status payload.
pub fn classify(status: &Json, declared: &str) -> (r: Option<DeviceKind>)
    ensures
        r == classified_kind(*status, declared@),
{
    if declared.unicode_len() == 0 {
        autodetect_device_type(status)
    } else {
        match_device_type(declared)
    }
}

/// Whether no character of `s` is a colon.
pub open spec fn colon_free(s: Seq<char>) -> bool {
    forall|i: int| 0 <= i < s.len() ==> s[i] != ':'
}

/// How a device description `type:id[:name]` is split: at its first two
/// colons, the name keeping any further ones.
pub open spec fn device_info_of(
    s: Seq<char>,
    info: (Seq<char>, Seq<char>, Option<Seq<char>>),
) -> bool {
    let (kind, id, name) = info;
    &&& colon_free(kind)
    &&& colon_free(id)
    &&& match name {
        None => s == kind + seq![':'] + id,
        Some(n) => s == kind + seq![':'] + id + seq![':'] + n,
    }
}

/// The position of the first colon of `s` at or after `from`, or its length.
fn next_colon(s: &str, from: usize) -> (r: usize)
    requires
        from <= s@.len(),
    ensures
        from <= r <= s@.len(),
        forall|i: int| from <= i < r ==> s@[i] != ':',
        r < s@.len() ==> s@[r as int] == ':',
{
    let n = s.unicode_len();
    let mut i = from;
    while i < n
        invariant
            n == s@.len(),
            from <= i <= n,
            forall|j: int| from <= j < i ==> s@[j] != ':',
        decreases n - i,
    {
        if s.get_char(i) == ':' {
            return i;
        }
        i = i + 1;
    }
    i
}

/// Splits a device description `type:id[:name]`; `None` when it holds no
/// colon. The type may be empty, which asks for autodetection.
pub fn parse_device_info(device: &str) -> (r: Option<(String, String, Option<String>)>)
    ensures
        r is None <==> colon_free(device@),
        r matches Some((kind, id, name)) ==> device_info_of(
            device@,
            (kind@, id@, if name is Some {
                Some(name->0@)
            } else {
                None
            }),
        ),
{
    let n = device.unicode_len();
    let first = next_colon(device, 0);
    if first == n {
        return None;
    }
    let second = next_colon(device, first + 1);
    let kind = String::from_str(device.substring_char(0, first));
    let id = String::from_str(device.substring_char(first + 1, second));
    if second == n {
        proof {
            assert(device@ =~= kind@ + seq![':'] + id@);
        }
        Some((kind, id, None))
    } else {
        let name = String::from_str(device.substring_char(second + 1, n));
        proof {
            assert(device@ =~= kind@ + seq![':'] + id@ + seq![':'] + name@);
        }
        Some((kind, id, Some(name)))
    }
}

/// A status payload that holds the marker keys of exactly one kind is
/// detected as that kind; one that holds none is detected as no kind.
pub proof fn lemma_detect_single_marker(status: Json, k: DeviceKind)
    ensures
        (has_marker(status, k) && forall|other: DeviceKind|
            other != k ==> !has_marker(status, other)) ==> detected_kind(status) == Some(k),
        (forall|any: DeviceKind| !has_marker(status, any)) ==> detected_kind(status) is None,
{
    if forall|any: DeviceKind| !has_marker(status, any) {
        assert(!has_marker(status, DeviceKind::Temperature));
        assert(!has_marker(status, DeviceKind::Plug));
        assert(!has_marker(status, DeviceKind::Door));
        assert(!has_marker(status, DeviceKind::Window));
    }
    if has_marker(status, k) && forall|other: DeviceKind|
        other != k ==> !has_marker(status, other) {
        assert(k != DeviceKind::Temperature ==> !has_marker(status, DeviceKind::Temperature));
        assert(k != DeviceKind::Plug ==> !has_marker(status, DeviceKind::Plug));
        assert(k != DeviceKind::Door ==> !has_marker(status, DeviceKind::Door));
    }
}

proof fn lemma_same_ignoring_case_trans(a: Seq<char>, b: Seq<char>, c: Seq<char>)
    requires
        same_ignoring_case(a, b),
    ensures
        same_ignoring_case(a, c) == same_ignoring_case(b, c),
{
    if same_ignoring_case(b, c) {
        assert forall|i: int| 0 <= i < a.len() implies fold_char(a[i]) == fold_char(c[i]) by {
            assert(fold_char(a[i]) == fold_char(b[i]));
        }
    }
    if same_ignoring_case(a, c) {
        assert forall|i: int| 0 <= i < b.len() implies fold_char(b[i]) == fold_char(c[i]) by {
            assert(fold_char(a[i]) == fold_char(b[i]));
        }
    }
}

/// A declared type name that matches a kind's name when letter case is
/// ignored stands for that kind; a name that matches none stands for none.
pub proof fn lemma_declared_name_case_insensitive(s: Seq<char>, k: DeviceKind)
    ensures
        same_ignoring_case(s, kind_name(k)) ==> kind_named(s) == Some(k),
        (forall|any: DeviceKind| !same_ignoring_case(s, kind_name(any))) ==> kind_named(s) is None,
{
    reveal_strlit("temperature");
    reveal_strlit("plug");
    reveal_strlit("door");
    reveal_strlit("window");
    if same_ignoring_case(s, kind_name(k)) {
        lemma_same_ignoring_case_trans(s, kind_name(k), "plug"@);
        lemma_same_ignoring_case_trans(s, kind_name(k), "door"@);
        lemma_same_ignoring_case_trans(s, kind_name(k), "temperature"@);
        lemma_same_ignoring_case_trans(s, kind_name(k), "window"@);
        if k == DeviceKind::Plug {
            assert(fold_char("plug"@[0]) != fold_char("door"@[0]));
        } else if k == DeviceKind::Door {
            assert(fold_char("door"@[0]) != fold_char("plug"@[0]));
        }
    }
    if forall|any: DeviceKind| !same_ignoring_case(s, kind_name(any)) {
        assert(!same_ignoring_case(s, kind_name(DeviceKind::Temperature)));
        assert(!same_ignoring_case(s, kind_name(DeviceKind::Plug)));
        assert(!same_ignoring_case(s, kind_name(DeviceKind::Door)));
        assert(!same_ignoring_case(s, kind_name(DeviceKind::Window)));
    }
}

} // verus!
