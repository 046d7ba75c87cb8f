use buddai::error::Error;
use buddai::json::{arr_get, as_text, obj_get, parse_json, Json};
use buddai::text::{ascii_lower_bytes, bytes_eq, escape_json, u16_to_string};
use buddai::transport::{post_finish, status_ok, FetchOutcome};

#[test]
fn error_new_keeps_message() {
    let e = Error::new("something went wrong");
    assert_eq!(e.message, "something went wrong");
}

#[test]
fn u16_to_string_renders_decimal() {
    assert_eq!(u16_to_string(0), "0");
    assert_eq!(u16_to_string(7), "7");
    assert_eq!(u16_to_string(401), "401");
    assert_eq!(u16_to_string(500), "500");
    assert_eq!(u16_to_string(65535), "65535");
}

#[test]
fn escape_json_escapes_specials() {
    let r = escape_json(b"a\"b\\c\nd\re\tf");
    assert_eq!(r, b"a\\\"b\\\\c\\nd\\re\\tf".to_vec());
}

#[test]
fn escape_json_escapes_control_bytes() {
    assert_eq!(escape_json(&[0x01]), b"\\u0001".to_vec());
    assert_eq!(escape_json(&[0x1f]), b"\\u001f".to_vec());
    assert_eq!(escape_json(&[0x08]), b"\\b".to_vec());
    assert_eq!(escape_json(&[0x0c]), b"\\f".to_vec());
}

#[test]
fn escape_json_of_empty_is_empty() {
    assert_eq!(escape_json(b""), Vec::<u8>::new());
}

#[test]
fn escape_json_keeps_plain_text() {
    assert_eq!(escape_json(b"diff --git a/x b/x"), b"diff --git a/x b/x".to_vec());
}

#[test]
fn ascii_lower_bytes_folds_letters() {
    let low = ascii_lower_bytes(b"GeMiNi-123_Z");
    assert_eq!(low, b"gemini-123_z".to_vec());
    assert!(bytes_eq(low.as_slice(), b"gemini-123_z"));
    assert!(!bytes_eq(low.as_slice(), b"gemini"));
}

#[test]
fn status_ok_is_the_success_range() {
    assert!(status_ok(200));
    assert!(status_ok(204));
    assert!(status_ok(299));
    assert!(!status_ok(199));
    assert!(!status_ok(300));
    assert!(!status_ok(401));
    assert!(!status_ok(500));
}

#[test]
fn parse_json_builds_the_model() {
    let r = parse_json("{\"a\":[1,true,null,\"s\"]}").unwrap();
    let expected = Json::Obj(vec![(
        "a".to_string(),
        Json::Arr(vec![
            Json::Num("1".to_string()),
            Json::Bool(true),
            Json::Null,
            Json::Text("s".to_string()),
        ]),
    )]);
    assert_eq!(r, expected);
}

#[test]
fn parse_json_rejects_invalid_text() {
    assert!(parse_json("not json at all").is_err());
    assert!(parse_json("{\"a\":").is_err());
}

#[test]
fn json_lookups_follow_the_shape() {
    let j = parse_json("{\"a\":[{\"b\":\"x\"}]}").unwrap();
    let a = obj_get(&j, "a").unwrap();
    let first = arr_get(a, 0).unwrap();
    let b = obj_get(first, "b").unwrap();
    assert_eq!(as_text(b).unwrap(), "x");
    assert!(obj_get(&j, "missing").is_none());
    assert!(arr_get(a, 1).is_none());
    assert!(as_text(a).is_none());
}

#[test]
fn post_finish_send_failure_keeps_cause() {
    let r = post_finish(FetchOutcome::SendFailed("connection refused".to_string()));
    let e = r.err().unwrap();
    assert_eq!(e.message, "Failed to send request: connection refused");
}

#[test]
fn post_finish_bad_status_names_the_code() {
    let e = post_finish(FetchOutcome::BadStatus(401)).err().unwrap();
    assert_eq!(e.message, "Request failed with status code: 401");
    let e = post_finish(FetchOutcome::BadStatus(500)).err().unwrap();
    assert_eq!(e.message, "Request failed with status code: 500");
}

#[test]
fn post_finish_read_failure_keeps_cause() {
    let e = post_finish(FetchOutcome::ReadFailed("broken pipe".to_string())).err().unwrap();
    assert_eq!(e.message, "Failed to read response: broken pipe");
}

#[test]
fn post_finish_parse_failure_is_reported() {
    let e = post_finish(FetchOutcome::Body("<html>oops</html>".to_string())).err().unwrap();
    assert!(e.message.starts_with("Failed to parse response: "));
}

#[test]
fn post_finish_valid_body_is_parsed() {
    let r = post_finish(FetchOutcome::Body("[true]".to_string()));
    assert_eq!(r.ok().unwrap(), Json::Arr(vec![Json::Bool(true)]));
}
