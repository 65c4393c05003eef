//! Rendering a device's status payload into status-bar text and tooltip.
//! Every reading that is absent or of another type counts as zero (or
//! false), so rendering never fails.
use vstd::prelude::*;
use crate::decimal::{fixed_text, Decimal};
use crate::device::{DeviceKind, OutputFormat, TempUnit};
use crate::json::{
    at2, at3, bool_or_false, decimal_or_zero, get2, get3, i64_or_zero, read_bool, read_decimal,
    read_i64, read_u64, u64_or_zero, Json,
};
use crate::text::{i64_text, int_text, nat_text, u64_text};

verus! {

/// The display unit for one device.
#[derive(Debug)]
pub struct Fragment {
    pub text: String,
    pub tooltip: String,
}

impl Fragment {
    /// An equal copy of this fragment.
    pub fn duplicate(&self) -> (r: Fragment)
        ensures
            r == *self,
    {
        Fragment { text: self.text.clone(), tooltip: self.tooltip.clone() }
    }
}

/// What a fragment shows: its text and its tooltip.
pub open spec fn shows(f: Fragment, text: Seq<char>, tooltip: Seq<char>) -> bool {
    f.text@ == text && f.tooltip@ == tooltip
}

/// The battery and signal tooltip shared by sensors.
pub open spec fn sensor_tooltip(format: OutputFormat, battery: u64, rssi: i64) -> Seq<char> {
    match format {
        OutputFormat::Short => "B: "@ + nat_text(battery as nat) + "% RSSI: "@ + int_text(rssi as int)
            + "dBm"@,
        OutputFormat::Long => "Battery: "@ + nat_text(battery as nat) + "% RSSI: "@ + int_text(
            rssi as int,
        ) + "dBm"@,
        OutputFormat::Icons => "\u{1f50b}"@ + nat_text(battery as nat) + "% \u{1f4f6}"@ + int_text(
            rssi as int,
        ) + "dBm"@,
    }
}

/// The label after a temperature.
pub open spec fn unit_label(unit: TempUnit) -> Seq<char> {
    match unit {
        TempUnit::Celsius => "\u{b0}C"@,
        TempUnit::Fahrenheit => "\u{b0}F"@,
    }
}

/// The temperature reading in the chosen unit.
pub open spec fn temperature_reading(status: Json, unit: TempUnit) -> Decimal {
    match unit {
        TempUnit::Celsius => decimal_or_zero(at2(status, "temperature:0"@, "tC"@)),
        TempUnit::Fahrenheit => decimal_or_zero(at2(status, "temperature:0"@, "tF"@)),
    }
}

pub open spec fn humidity_reading(status: Json) -> u64 {
    u64_or_zero(at2(status, "humidity:0"@, "rh"@))
}

pub open spec fn battery_reading(status: Json) -> u64 {
    u64_or_zero(at3(status, "devicepower:0"@, "battery"@, "percent"@))
}

/// Signal strength as a battery-powered sensor reports it.
pub open spec fn sensor_rssi(status: Json) -> i64 {
    i64_or_zero(at2(status, "reporter"@, "rssi"@))
}

/// The text of a temperature sensor.
pub open spec fn temperature_text(status: Json, format: OutputFormat, unit: TempUnit) -> Seq<
    char,
> {
    let t = fixed_text(temperature_reading(status, unit), 1);
    let u = unit_label(unit);
    let h = nat_text(humidity_reading(status) as nat);
    match format {
        OutputFormat::Short => "T: "@ + t + u + " H: "@ + h + "%"@,
        OutputFormat::Long => "Temp: "@ + t + u + " Humidity: "@ + h + "%"@,
        OutputFormat::Icons => "\u{f2c9}"@ + t + u + " \u{1f4a7}"@ + h + "%"@,
    }
}

/// The tooltip of a battery-powered sensor: its battery and signal.
pub open spec fn battery_tooltip(status: Json, format: OutputFormat) -> Seq<char> {
    sensor_tooltip(format, battery_reading(status), sensor_rssi(status))
}

/// Renders a temperature and humidity sensor.
pub fn parse_temperature_data(status: &Json, format: OutputFormat, unit: TempUnit) -> (r:
    Fragment)
    ensures
        shows(r, temperature_text(*status, format, unit), battery_tooltip(*status, format)),
{
    let temp = match unit {
        TempUnit::Celsius => read_decimal(get2(status, "temperature:0", "tC")),
        TempUnit::Fahrenheit => read_decimal(get2(status, "temperature:0", "tF")),
    };
    let humidity = read_u64(get2(status, "humidity:0", "rh"));
    let battery = read_u64(get3(status, "devicepower:0", "battery", "percent"));
    let rssi = read_i64(get2(status, "reporter", "rssi"));
    let label = match unit {
        TempUnit::Celsius => "\u{b0}C",
        TempUnit::Fahrenheit => "\u{b0}F",
    };
    let t = temp.to_fixed(1);
    let h = u64_text(humidity);
    let mut text = match format {
        OutputFormat::Short => String::from_str("T: "),
        OutputFormat::Long => String::from_str("Temp: "),
        OutputFormat::Icons => String::from_str("\u{f2c9}"),
    };
    text.append(t.as_str());
    text.append(label);
    match format {
        OutputFormat::Short => text.append(" H: "),
        OutputFormat::Long => text.append(" Humidity: "),
        OutputFormat::Icons => text.append(" \u{1f4a7}"),
    }
    text.append(h.as_str());
    text.append("%");
    let tooltip = sensor_tooltip_text(format, battery, rssi);
    Fragment { text, tooltip }
}

fn sensor_tooltip_text(format: OutputFormat, battery: u64, rssi: i64) -> (r: String)
    ensures
        r@ == sensor_tooltip(format, battery, rssi),
{
    let b = u64_text(battery);
    let s = i64_text(rssi);
    let mut tip = match format {
        OutputFormat::Short => String::from_str("B: "),
        OutputFormat::Long => String::from_str("Battery: "),
        OutputFormat::Icons => String::from_str("\u{1f50b}"),
    };
    tip.append(b.as_str());
    match format {
        OutputFormat::Short => tip.append("% RSSI: "),
        OutputFormat::Long => tip.append("% RSSI: "),
        OutputFormat::Icons => tip.append("% \u{1f4f6}"),
    }
    tip.append(s.as_str());
    tip.append("dBm");
    tip
}

/// The on/off word of a switch.
pub open spec fn switch_state(on: bool) -> Seq<char> {
    if on {
        "ON"@
    } else {
        "OFF"@
    }
}

/// The text of a power plug.
pub open spec fn plug_text(status: Json, format: OutputFormat) -> Seq<char> {
    let p = fixed_text(decimal_or_zero(at2(status, "switch:0"@, "apower"@)), 1);
    let v = fixed_text(decimal_or_zero(at2(status, "switch:0"@, "voltage"@)), 1);
    match format {
        OutputFormat::Short => "P: "@ + p + "W V: "@ + v + "V"@,
        OutputFormat::Long => "Power: "@ + p + "W Voltage: "@ + v + "V"@,
        OutputFormat::Icons => "\u{26a1}"@ + p + "W \u{1f50c}"@ + v + "V"@,
    }
}

/// The tooltip of a power plug.
pub open spec fn plug_tooltip(status: Json, format: OutputFormat) -> Seq<char> {
    let c = fixed_text(decimal_or_zero(at2(status, "switch:0"@, "current"@)), 3);
    let s = int_text(i64_or_zero(at2(status, "wifi"@, "rssi"@)) as int);
    let o = switch_state(bool_or_false(at2(status, "switch:0"@, "output"@)));
    match format {
        OutputFormat::Short => "I: "@ + c + "A RSSI: "@ + s + "dBm O: "@ + o,
        OutputFormat::Long => "Current: "@ + c + "A WiFi RSSI: "@ + s + "dBm Output: "@ + o,
        OutputFormat::Icons => "\u{1f50b}"@ + c + "A \u{1f4f6}"@ + s + "dBm \u{1f506}"@ + o,
    }
}

/// Renders a power plug.
pub fn parse_plug_data(status: &Json, format: OutputFormat) -> (r: Fragment)
    ensures
        shows(r, plug_text(*status, format), plug_tooltip(*status, format)),
{
    let power = read_decimal(get2(status, "switch:0", "apower"));
    let voltage = read_decimal(get2(status, "switch:0", "voltage"));
    let current = read_decimal(get2(status, "switch:0", "current"));
    let output = read_bool(get2(status, "switch:0", "output"));
    let rssi = read_i64(get2(status, "wifi", "rssi"));
    let p = power.to_fixed(1);
    let v = voltage.to_fixed(1);
    let c = current.to_fixed(3);
    let s = i64_text(rssi);
    let o = if output {
        "ON"
    } else {
        "OFF"
    };
    let mut text = match format {
        OutputFormat::Short => String::from_str("P: "),
        OutputFormat::Long => String::from_str("Power: "),
        OutputFormat::Icons => String::from_str("\u{26a1}"),
    };
    text.append(p.as_str());
    match format {
        OutputFormat::Short => text.append("W V: "),
        OutputFormat::Long => text.append("W Voltage: "),
        OutputFormat::Icons => text.append("W \u{1f50c}"),
    }
    text.append(v.as_str());
    text.append("V");
    let mut tooltip = match format {
        OutputFormat::Short => String::from_str("I: "),
        OutputFormat::Long => String::from_str("Current: "),
        OutputFormat::Icons => String::from_str("\u{1f50b}"),
    };
    tooltip.append(c.as_str());
    match format {
        OutputFormat::Short => tooltip.append("A RSSI: "),
        OutputFormat::Long => tooltip.append("A WiFi RSSI: "),
        OutputFormat::Icons => tooltip.append("A \u{1f4f6}"),
    }
    tooltip.append(s.as_str());
    match format {
        OutputFormat::Short => tooltip.append("dBm O: "),
        OutputFormat::Long => tooltip.append("dBm Output: "),
        OutputFormat::Icons => tooltip.append("dBm \u{1f506}"),
    }
    tooltip.append(o);
    Fragment { text, tooltip }
}

/// The open/closed word of a contact.
pub open spec fn contact_state(open: bool) -> Seq<char> {
    if open {
        "Open"@
    } else {
        "Closed"@
    }
}

/// What a window adds to a contact's text: its tilt angle.
pub open spec fn tilt_suffix(status: Json, is_window: bool) -> Seq<char> {
    if is_window {
        ", Tilt: "@ + nat_text(u64_or_zero(at2(status, "tilt:0"@, "angle"@)) as nat)
    } else {
        Seq::empty()
    }
}

/// Whether a door or window reports itself open.
pub open spec fn open_reading(status: Json) -> bool {
    bool_or_false(at2(status, "window:0"@, "open"@))
}

/// The text of a door or window contact.
pub open spec fn contact_text(status: Json, is_window: bool, format: OutputFormat) -> Seq<char> {
    let open = open_reading(status);
    let lux = nat_text(u64_or_zero(at2(status, "illuminance:0"@, "lux"@)) as nat);
    let tilt = tilt_suffix(status, is_window);
    match format {
        OutputFormat::Short => contact_state(open) + ": L: "@ + lux + tilt,
        OutputFormat::Long => contact_state(open) + ", Lux: "@ + lux + tilt,
        OutputFormat::Icons => (if open {
            "\u{1f7e2}"@
        } else {
            "\u{1f534}"@
        }) + " \u{1f506}"@ + lux + tilt,
    }
}

/// Renders a door or, with its tilt angle, a window contact.
pub fn parse_window_or_door_data(status: &Json, is_window: bool, format: OutputFormat) -> (r:
    Fragment)
    ensures
        shows(r, contact_text(*status, is_window, format), battery_tooltip(*status, format)),
{
    let open = read_bool(get2(status, "window:0", "open"));
    let lux = read_u64(get2(status, "illuminance:0", "lux"));
    let battery = read_u64(get3(status, "devicepower:0", "battery", "percent"));
    let rssi = read_i64(get2(status, "reporter", "rssi"));
    let mut text = match format {
        OutputFormat::Short | OutputFormat::Long => if open {
            String::from_str("Open")
        } else {
            String::from_str("Closed")
        },
        OutputFormat::Icons => if open {
            String::from_str("\u{1f7e2}")
        } else {
            String::from_str("\u{1f534}")
        },
    };
    match format {
        OutputFormat::Short => text.append(": L: "),
        OutputFormat::Long => text.append(", Lux: "),
        OutputFormat::Icons => text.append(" \u{1f506}"),
    }
    let l = u64_text(lux);
    text.append(l.as_str());
    if is_window {
        let angle = read_u64(get2(status, "tilt:0", "angle"));
        let a = u64_text(angle);
        text.append(", Tilt: ");
        text.append(a.as_str());
        proof {
            assert(text@ =~= contact_text(*status, is_window, format));
        }
    } else {
        proof {
            assert(text@ =~= contact_text(*status, is_window, format));
        }
    }
    let tooltip = sensor_tooltip_text(format, battery, rssi);
    Fragment { text, tooltip }
}

/// The fragment a device of kind `kind` shows for `status`.
pub open spec fn rendered(
    kind: DeviceKind,
    status: Json,
    format: OutputFormat,
    unit: TempUnit,
) -> (Seq<char>, Seq<char>) {
    match kind {
        DeviceKind::Temperature => (
            temperature_text(status, format, unit),
            battery_tooltip(status, format),
        ),
        DeviceKind::Plug => (plug_text(status, format), plug_tooltip(status, format)),
        DeviceKind::Door => (contact_text(status, false, format), battery_tooltip(status, format)),
        DeviceKind::Window => (contact_text(status, true, format), battery_tooltip(status, format)),
    }
}

/// Renders a status payload as a device of the given kind.
pub fn render(kind: DeviceKind, status: &Json, format: OutputFormat, unit: TempUnit) -> (r:
    Fragment)
    ensures
        shows(r, rendered(kind, *status, format, unit).0, rendered(kind, *status, format, unit).1),
{
    match kind {
        DeviceKind::Temperature => parse_temperature_data(status, format, unit),
        DeviceKind::Plug => parse_plug_data(status, format),
        DeviceKind::Door => parse_window_or_door_data(status, false, format),
        DeviceKind::Window => parse_window_or_door_data(status, true, format),
    }
}

/// Rendering is deterministic: any two fragments that `render` may give
/// for the same kind, payload, format and unit show the same text and the
/// same tooltip.
pub proof fn lemma_render_deterministic(
    kind: DeviceKind,
    status: Json,
    format: OutputFormat,
    unit: TempUnit,
    a: Fragment,
    b: Fragment,
)
    requires
        shows(a, rendered(kind, status, format, unit).0, rendered(kind, status, format, unit).1),
        shows(b, rendered(kind, status, format, unit).0, rendered(kind, status, format, unit).1),
    ensures
        a.text@ == b.text@,
        a.tooltip@ == b.tooltip@,
{
}

/// A fragment with a device's display name: the name in parentheses after
/// the text, and a first tooltip line naming the device.
pub open spec fn named(text: Seq<char>, tooltip: Seq<char>, name: Seq<char>) -> (Seq<char>, Seq<char>) {
    (text + " ("@ + name + ")"@, "Device: "@ + name + "\n"@ + tooltip)
}

/// Adds a device's display name to its fragment.
pub fn with_name(fragment: Fragment, name: &str) -> (r: Fragment)
    ensures
        shows(
            r,
            named(fragment.text@, fragment.tooltip@, name@).0,
            named(fragment.text@, fragment.tooltip@, name@).1,
        ),
{
    let mut text = fragment.text;
    text.append(" (");
    text.append(name);
    text.append(")");
    let mut tooltip = String::from_str("Device: ");
    tooltip.append(name);
    tooltip.append("\n");
    tooltip.append(fragment.tooltip.as_str());
    Fragment { text, tooltip }
}

} // verus!
