use shelly_waybar::decimal::Decimal;
use shelly_waybar::device::{DeviceKind, OutputFormat, TempUnit};
use shelly_waybar::json::{Json, Number};
use shelly_waybar::render::{
    parse_plug_data, parse_temperature_data, parse_window_or_door_data, render, with_name,
};

fn obj(members: Vec<(&str, Json)>) -> Json {
    Json::Object(members.into_iter().map(|(k, v)| (k.to_string(), v)).collect())
}

fn float(x: f64) -> Json {
    Json::Number(Number::Float(Decimal::parse(&x.to_string()).unwrap()))
}

fn uint(n: u64) -> Json {
    Json::Number(Number::PosInt(n))
}

fn signed(i: i64) -> Json {
    Json::Number(Number::NegInt(i))
}

fn temperature_status() -> Json {
    obj(vec![
        ("temperature:0", obj(vec![("tC", float(22.5)), ("tF", float(72.5))])),
        ("humidity:0", obj(vec![("rh", uint(50))])),
        ("devicepower:0", obj(vec![("battery", obj(vec![("percent", uint(80))]))])),
        ("reporter", obj(vec![("rssi", signed(-60))])),
    ])
}

fn plug_status() -> Json {
    obj(vec![
        (
            "switch:0",
            obj(vec![
                ("apower", float(50.0)),
                ("voltage", float(230.0)),
                ("current", float(0.217)),
                ("output", Json::Bool(true)),
            ]),
        ),
        ("wifi", obj(vec![("rssi", signed(-70))])),
    ])
}

fn contact_status() -> Json {
    obj(vec![
        ("window:0", obj(vec![("open", Json::Bool(true))])),
        ("illuminance:0", obj(vec![("lux", uint(100))])),
        ("devicepower:0", obj(vec![("battery", obj(vec![("percent", uint(90))]))])),
        ("reporter", obj(vec![("rssi", signed(-65))])),
        ("tilt:0", obj(vec![("angle", uint(30))])),
    ])
}

#[test]
fn test_parse_temperature_data() {
    let device_status = temperature_status();

    let output = parse_temperature_data(&device_status, OutputFormat::Short, TempUnit::Celsius);
    assert_eq!(output.text, "T: 22.5°C H: 50%");
    assert_eq!(output.tooltip, "B: 80% RSSI: -60dBm");

    let output = parse_temperature_data(&device_status, OutputFormat::Long, TempUnit::Fahrenheit);
    assert_eq!(output.text, "Temp: 72.5°F Humidity: 50%");
    assert_eq!(output.tooltip, "Battery: 80% RSSI: -60dBm");

    let output = parse_temperature_data(&device_status, OutputFormat::Icons, TempUnit::Celsius);
    assert_eq!(output.text, "\u{f2c9}22.5°C 💧50%");
    assert_eq!(output.tooltip, "🔋80% 📶-60dBm");
}

#[test]
fn test_parse_plug_data() {
    let device_status = plug_status();

    let output = parse_plug_data(&device_status, OutputFormat::Short);
    assert_eq!(output.text, "P: 50.0W V: 230.0V");
    assert_eq!(output.tooltip, "I: 0.217A RSSI: -70dBm O: ON");

    let output = parse_plug_data(&device_status, OutputFormat::Long);
    assert_eq!(output.text, "Power: 50.0W Voltage: 230.0V");
    assert_eq!(output.tooltip, "Current: 0.217A WiFi RSSI: -70dBm Output: ON");

    let output = parse_plug_data(&device_status, OutputFormat::Icons);
    assert_eq!(output.text, "⚡50.0W 🔌230.0V");
    assert_eq!(output.tooltip, "🔋0.217A 📶-70dBm 🔆ON");
}

#[test]
fn test_parse_window_or_door_data() {
    let device_status = contact_status();

    let output = parse_window_or_door_data(&device_status, true, OutputFormat::Short);
    assert_eq!(output.text, "Open: L: 100, Tilt: 30");
    assert_eq!(output.tooltip, "B: 90% RSSI: -65dBm");

    let output = parse_window_or_door_data(&device_status, false, OutputFormat::Long);
    assert_eq!(output.text, "Open, Lux: 100");
    assert_eq!(output.tooltip, "Battery: 90% RSSI: -65dBm");

    let output = parse_window_or_door_data(&device_status, true, OutputFormat::Icons);
    assert_eq!(output.text, "🟢 🔆100, Tilt: 30");
    assert_eq!(output.tooltip, "🔋90% 📶-65dBm");
}

#[test]
fn missing_or_mistyped_readings_count_as_zero() {
    let empty = obj(vec![]);
    let output = parse_temperature_data(&empty, OutputFormat::Short, TempUnit::Celsius);
    assert_eq!(output.text, "T: 0.0°C H: 0%");
    assert_eq!(output.tooltip, "B: 0% RSSI: 0dBm");

    let output = parse_plug_data(&empty, OutputFormat::Short);
    assert_eq!(output.text, "P: 0.0W V: 0.0V");
    assert_eq!(output.tooltip, "I: 0.000A RSSI: 0dBm O: OFF");

    let mistyped = obj(vec![
        ("window:0", obj(vec![("open", uint(1))])),
        ("illuminance:0", obj(vec![("lux", float(12.5))])),
        ("tilt:0", obj(vec![("angle", signed(-3))])),
    ]);
    let output = parse_window_or_door_data(&mistyped, true, OutputFormat::Icons);
    assert_eq!(output.text, "🔴 🔆0, Tilt: 0");
}

#[test]
fn closed_door_short_and_long() {
    let status = obj(vec![("window:0", obj(vec![("open", Json::Bool(false))]))]);
    let output = parse_window_or_door_data(&status, false, OutputFormat::Short);
    assert_eq!(output.text, "Closed: L: 0");
    let output = parse_window_or_door_data(&status, false, OutputFormat::Long);
    assert_eq!(output.text, "Closed, Lux: 0");
}

#[test]
fn render_dispatches_by_kind() {
    let output = render(DeviceKind::Temperature, &temperature_status(), OutputFormat::Short, TempUnit::Fahrenheit);
    assert_eq!(output.text, "T: 72.5°F H: 50%");
    let output = render(DeviceKind::Plug, &plug_status(), OutputFormat::Long, TempUnit::Celsius);
    assert_eq!(output.text, "Power: 50.0W Voltage: 230.0V");
    let output = render(DeviceKind::Door, &contact_status(), OutputFormat::Short, TempUnit::Celsius);
    assert_eq!(output.text, "Open: L: 100");
    let output = render(DeviceKind::Window, &contact_status(), OutputFormat::Short, TempUnit::Celsius);
    assert_eq!(output.text, "Open: L: 100, Tilt: 30");
}

#[test]
fn render_is_deterministic() {
    let a = render(DeviceKind::Plug, &plug_status(), OutputFormat::Icons, TempUnit::Celsius);
    let b = render(DeviceKind::Plug, &plug_status(), OutputFormat::Icons, TempUnit::Celsius);
    assert_eq!(a.text, b.text);
    assert_eq!(a.tooltip, b.tooltip);
}

#[test]
fn with_name_decorates_text_and_tooltip() {
    let output = parse_temperature_data(&temperature_status(), OutputFormat::Short, TempUnit::Celsius);
    let named = with_name(output, "Living Room");
    assert_eq!(named.text, "T: 22.5°C H: 50% (Living Room)");
    assert_eq!(named.tooltip, "Device: Living Room\nB: 80% RSSI: -60dBm");
}

#[test]
fn fixed_point_rounds_half_to_even() {
    let d = |s: &str| Decimal::parse(s).unwrap();
    assert_eq!(d("22.25").to_fixed(1), "22.2");
    assert_eq!(d("22.35").to_fixed(1), "22.4");
    assert_eq!(d("22.251").to_fixed(1), "22.3");
    assert_eq!(d("0.05").to_fixed(1), "0.0");
    assert_eq!(d("0.15").to_fixed(1), "0.2");
    assert_eq!(d("-0.04").to_fixed(1), "-0.0");
    assert_eq!(d("-12.345").to_fixed(3), "-12.345");
    assert_eq!(d("7").to_fixed(3), "7.000");
    assert_eq!(d("0.0001").to_fixed(3), "0.000");
    assert_eq!(d("0.0005").to_fixed(3), "0.000");
    assert_eq!(d("0.0015").to_fixed(3), "0.002");
    assert_eq!(d("99.96").to_fixed(1), "100.0");
    assert_eq!(d("18446744073709551615").to_fixed(1), "18446744073709551615.0");
    let tiny = Decimal { negative: false, magnitude: 5, scale: 60 };
    assert_eq!(tiny.to_fixed(1), "0.0");
}

#[test]
fn decimal_parse_accepts_only_plain_decimals() {
    assert_eq!(
        Decimal::parse("22.5"),
        Some(Decimal { negative: false, magnitude: 225, scale: 1 })
    );
    assert_eq!(
        Decimal::parse("-0"),
        Some(Decimal { negative: true, magnitude: 0, scale: 0 })
    );
    assert_eq!(
        Decimal::parse("0.217"),
        Some(Decimal { negative: false, magnitude: 217, scale: 3 })
    );
    assert_eq!(Decimal::parse(""), None);
    assert_eq!(Decimal::parse("-"), None);
    assert_eq!(Decimal::parse("1."), None);
    assert_eq!(Decimal::parse(".5"), None);
    assert_eq!(Decimal::parse("1e5"), None);
    assert_eq!(Decimal::parse("1.2.3"), None);
    assert_eq!(Decimal::parse("18446744073709551616"), None);
    assert_eq!(Decimal::parse("1844674407370955161.6"), None);
}
