use shelly_waybar::api::{interpret_response, ApiData, ApiResponse, FetchError};
use shelly_waybar::decimal::Decimal;
use shelly_waybar::json::{Json, Number};

fn obj(members: Vec<(&str, Json)>) -> Json {
    Json::Object(members.into_iter().map(|(k, v)| (k.to_string(), v)).collect())
}

fn float(x: f64) -> Json {
    Json::Number(Number::Float(Decimal::parse(&x.to_string()).unwrap()))
}

#[test]
fn successful_reply_yields_device_status() {
    let status = obj(vec![
        ("temperature:0", obj(vec![("tC", float(22.5)), ("tF", float(72.5))])),
        ("humidity:0", obj(vec![("rh", Json::Number(Number::PosInt(50)))])),
    ]);
    let reply = ApiResponse {
        isok: true,
        errors: None,
        data: Some(ApiData { device_status: Some(status) }),
    };
    let status = interpret_response(reply).unwrap();
    let temperature = status.get("temperature:0").unwrap();
    match temperature.get("tC") {
        Some(Json::Number(Number::Float(d))) => {
            assert_eq!(*d, Decimal { negative: false, magnitude: 225, scale: 1 })
        }
        other => panic!("unexpected reading {:?}", other),
    }
}

#[test]
fn successful_reply_without_status_is_missing() {
    let reply = ApiResponse { isok: true, errors: None, data: None };
    assert!(matches!(interpret_response(reply), Err(FetchError::Missing)));
    let reply = ApiResponse { isok: true, errors: None, data: Some(ApiData { device_status: None }) };
    assert!(matches!(interpret_response(reply), Err(FetchError::Missing)));
}

#[test]
fn invalid_token_reply_carries_message() {
    let reply = ApiResponse {
        isok: false,
        errors: Some(obj(vec![("invalid_token", Json::Str("expired".to_string()))])),
        data: None,
    };
    match interpret_response(reply) {
        Err(FetchError::InvalidToken(m)) => assert_eq!(m, "expired"),
        other => panic!("unexpected {:?}", other),
    }
    let reply = ApiResponse {
        isok: false,
        errors: Some(obj(vec![("invalid_token", Json::Bool(true))])),
        data: None,
    };
    match interpret_response(reply) {
        Err(FetchError::InvalidToken(m)) => assert_eq!(m, "Unknown error"),
        other => panic!("unexpected {:?}", other),
    }
}

#[test]
fn other_errors_are_passed_on() {
    let reply = ApiResponse {
        isok: false,
        errors: Some(obj(vec![("device_offline", Json::Str("no".to_string()))])),
        data: None,
    };
    match interpret_response(reply) {
        Err(FetchError::Rejected(e)) => assert!(e.get("device_offline").is_some()),
        other => panic!("unexpected {:?}", other),
    }
    let reply = ApiResponse { isok: false, errors: None, data: None };
    assert!(matches!(interpret_response(reply), Err(FetchError::Unknown)));
}
