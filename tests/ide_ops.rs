use amp_extras_core::ide_ops::{authenticate, ping, ping_response};
use amp_extras_core::json::{Json, JsonNumber};

fn object(members: Vec<(&str, Json)>) -> Json {
    Json::Object(members.into_iter().map(|(k, v)| (k.to_string(), v)).collect())
}

fn string(s: &str) -> Json {
    Json::Str(s.to_string())
}

#[test]
fn test_authenticate_success() {
    let result = authenticate(object(vec![])).unwrap();
    assert_eq!(result.get("authenticated"), Some(&Json::Bool(true)));
}

#[test]
fn test_authenticate_with_params() {
    let result = authenticate(object(vec![("token", string("abc123"))])).unwrap();
    assert_eq!(result.get("authenticated"), Some(&Json::Bool(true)));
}

#[test]
fn test_ping_returns_pong() {
    let result = ping(object(vec![])).unwrap();
    assert_eq!(result.get("pong"), Some(&Json::Bool(true)));
    assert!(result.get("ts").is_some());
}

#[test]
fn test_ping_with_message() {
    let result = ping(object(vec![("message", string("hello"))])).unwrap();
    assert_eq!(result.get("message"), Some(&string("hello")));
}

#[test]
fn test_ping_without_message() {
    let result = ping(object(vec![("other", string("data"))])).unwrap();
    assert_eq!(result.get("pong"), Some(&Json::Bool(true)));
    assert!(result.get("ts").is_some());
}

#[test]
fn test_ping_timestamp_format() {
    let result = ping(object(vec![])).unwrap();
    let ts = result.get("ts").unwrap().as_str().unwrap();
    assert!(chrono::DateTime::parse_from_rfc3339(ts).is_ok());
}

#[test]
fn ping_echo_is_exactly_the_message() {
    let result = ping(object(vec![("message", string("hi"))])).unwrap();
    assert_eq!(result, object(vec![("message", string("hi"))]));
    assert!(result.get("pong").is_none());
}

#[test]
fn ping_echoes_non_string_message_verbatim() {
    let msg = Json::Array(vec![Json::Number(JsonNumber::PosInt(3)), Json::Null]);
    let result = ping(object(vec![("message", msg)])).unwrap();
    let expected = Json::Array(vec![Json::Number(JsonNumber::PosInt(3)), Json::Null]);
    assert_eq!(result, object(vec![("message", expected)]));
}

#[test]
fn ping_response_carries_given_time() {
    let result = ping_response(object(vec![]), "2024-01-01T12:00:00Z".to_string());
    assert_eq!(
        result,
        object(vec![("pong", Json::Bool(true)), ("ts", string("2024-01-01T12:00:00Z"))])
    );
}

#[test]
fn ping_of_non_object_is_pong() {
    let result = ping_response(string("message"), "t".to_string());
    assert_eq!(result.get("pong"), Some(&Json::Bool(true)));
}

#[test]
fn json_get_takes_first_member_of_name() {
    let v = object(vec![("a", Json::Null), ("b", Json::Bool(false)), ("b", Json::Bool(true))]);
    assert_eq!(v.get("b"), Some(&Json::Bool(false)));
    assert_eq!(v.get("c"), None);
    assert_eq!(Json::Null.get("a"), None);
}

#[test]
fn ping_timestamp_is_utc_with_offset() {
    let result = ping(object(vec![])).unwrap();
    let ts = result.get("ts").unwrap().as_str().unwrap();
    assert!(ts.ends_with("+00:00"));
    assert_eq!(&ts[4..5], "-");
    assert_eq!(&ts[10..11], "T");
}
