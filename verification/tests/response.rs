use subsonic_client::error::Error;
use subsonic_client::json::parse_json;
use subsonic_client::response::Response;

fn envelope(s: &str) -> Response {
    Response::from_json(parse_json(s).unwrap()).unwrap()
}

#[test]
fn failed_envelope_resolves_to_api_error() {
    let resp = envelope(
        r#"{"subsonic-response":{
            "status":"failed","version":"1.14.0",
            "error":{"code":70,"message":"Requested resource not found"},
            "artist":{"id":"1","name":"ignored","albumCount":0}
        }}"#,
    );
    assert!(resp.is_err());
    assert_eq!(
        resp.into_value(),
        Err(Error::Api(70, String::from("Requested resource not found")))
    );
}

#[test]
fn into_error_extracts_the_failure() {
    let fail = envelope(
        r#"{"subsonic-response":{"status":"failed","version":"1.14.0",
            "error":{"code":40,"message":"Wrong username or password"}}}"#,
    );
    assert!(fail.into_error().is_some());

    let success = envelope(
        r#"{"subsonic-response":{"status":"ok","version":"1.14.0"}}"#,
    );
    assert!(success.into_error().is_none());
}

#[test]
fn ok_envelope_with_one_payload_resolves_to_it() {
    let resp = envelope(
        r#"{"subsonic-response":{"status":"ok","version":"1.14.0",
            "license":{"valid":true}}}"#,
    );
    assert!(resp.is_ok());
    let expected = parse_json(r#"{"valid":true}"#).unwrap();
    assert_eq!(resp.into_value(), Ok(&expected));
}

#[test]
fn resolution_follows_the_canonical_priority_order() {
    let resp = envelope(
        r#"{"subsonic-response":{"status":"ok","version":"1.14.0",
            "album":{"id":1,"name":"B","songCount":9},
            "artist":{"id":1,"name":"A","albumCount":0}}}"#,
    );
    let expected = parse_json(r#"{"id":1,"name":"A","albumCount":0}"#).unwrap();
    assert_eq!(resp.into_value(), Ok(&expected));
}

#[test]
fn ok_envelope_with_no_payload_is_unrecognized() {
    let resp = envelope(
        r#"{"subsonic-response":{"status":"ok","version":"1.14.0"}}"#,
    );
    assert!(resp.is_ok());
    assert_eq!(resp.into_value(), Err(Error::Unrecognized));
}

#[test]
fn unknown_status_is_malformed() {
    let r = Response::from_json(
        parse_json(r#"{"subsonic-response":{"status":"odd","version":"1.14.0"}}"#).unwrap(),
    );
    assert_eq!(
        r,
        Err(Error::Malformed(String::from("status"), String::from("odd")))
    );
}

#[test]
fn missing_wrapper_is_malformed() {
    let r = Response::from_json(parse_json(r#"{"status":"ok"}"#).unwrap());
    assert_eq!(
        r,
        Err(Error::Malformed(String::from("subsonic-response"), String::new()))
    );
}

#[test]
fn lenient_error_code_as_string() {
    let resp = envelope(
        r#"{"subsonic-response":{"status":"failed","version":"1.14.0",
            "error":{"code":"30","message":"Incompatible version"}}}"#,
    );
    assert_eq!(
        resp.into_value(),
        Err(Error::Api(30, String::from("Incompatible version")))
    );
}

#[test]
fn scan_status_is_the_last_payload_rank() {
    let resp = envelope(
        r#"{"subsonic-response":{"status":"ok","version":"1.16.1",
            "scanStatus":{"scanning":false,"count":5280}}}"#,
    );
    let expected = parse_json(r#"{"scanning":false,"count":5280}"#).unwrap();
    assert_eq!(resp.into_value(), Ok(&expected));
}
