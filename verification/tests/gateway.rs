use bytes::Bytes;
use minicap_bridge::input::{
    decode_input, input_response, parse_input, validation_response, InputCommand,
    ValidationError,
};
use minicap_bridge::json::JsonField;
use minicap_bridge::relay::{aq_endpoint, aq_run_request, handle_aq_response};
use minicap_bridge::response::{Body, Response};
use minicap_bridge::web_server::{
    asset_key, frame_response, handle_request, not_found_response, serve_asset,
    status_response, Route,
};

fn text_of(response: &Response) -> &str {
    match &response.body {
        Body::Text(text) => text,
        other => panic!("not text: {:?}", other),
    }
}

fn header(name: &str, value: &str) -> (String, String) {
    (name.to_string(), value.to_string())
}

#[test]
fn requests_are_routed_by_method_and_path() {
    assert_eq!(handle_request("GET", "/frame"), Route::Frame);
    assert_eq!(handle_request("GET", "/status"), Route::Status);
    assert_eq!(handle_request("GET", "/aq_status"), Route::AqStatus);
    assert_eq!(handle_request("GET", "/aq_queues"), Route::AqQueues);
    assert_eq!(handle_request("POST", "/aq_run"), Route::AqRun);
    assert_eq!(handle_request("POST", "/input"), Route::Input);
    assert_eq!(handle_request("GET", "/index.html"), Route::Asset);
    assert_eq!(handle_request("GET", "/input"), Route::Asset);
    assert_eq!(handle_request("GET", "/aq_run"), Route::Asset);
    assert_eq!(handle_request("POST", "/frame"), Route::NotFound);
    assert_eq!(handle_request("PUT", "/input"), Route::NotFound);
    assert_eq!(handle_request("get", "/frame"), Route::NotFound);
}

#[test]
fn frame_before_any_was_ingested_is_unavailable() {
    let response = frame_response(None);
    assert_eq!(response.status, 503);
    assert!(response.headers.is_empty());
    assert_eq!(text_of(&response), "Frame not available");
}

#[test]
fn frame_is_served_whole_and_uncached() {
    let response = frame_response(Some(Bytes::from(vec![0xff, 0xd8, 0xff])));
    assert_eq!(response.status, 200);
    assert_eq!(
        response.headers,
        vec![
            header("Content-Type", "image/jpeg"),
            header("Cache-Control", "no-cache, no-store, must-revalidate"),
            header("Pragma", "no-cache"),
            header("Expires", "0"),
        ]
    );
    match response.body {
        Body::Frame(frame) => assert_eq!(&frame[..], &[0xff, 0xd8, 0xff]),
        other => panic!("not a frame: {:?}", other),
    }
}

#[test]
fn empty_frame_is_served_as_a_frame() {
    let response = frame_response(Some(Bytes::new()));
    assert_eq!(response.status, 200);
    assert!(matches!(response.body, Body::Frame(ref frame) if frame.is_empty()));
}

#[test]
fn status_reports_the_frame_count() {
    let response = status_response(30);
    assert_eq!(response.status, 200);
    assert_eq!(response.headers, vec![header("Content-Type", "application/json")]);
    assert_eq!(text_of(&response), "{\"data\":{\"fps\":30},\"status\":\"up\"}");
    assert_eq!(
        text_of(&status_response(u32::MAX)),
        "{\"data\":{\"fps\":4294967295},\"status\":\"up\"}"
    );
}

#[test]
fn unknown_request_is_not_found() {
    let response = not_found_response();
    assert_eq!(response.status, 404);
    assert_eq!(response.headers, vec![header("Content-Type", "application/json")]);
    assert_eq!(text_of(&response), "{\"error\":\"Not Found\"}");
}

#[test]
fn tap_is_decoded_and_answered_with_success() {
    let outcome = parse_input(b"{\"action\":\"tap\",\"x\":10,\"y\":20}");
    assert!(matches!(outcome, Ok(InputCommand::Tap { x: 10, y: 20 })));
    let response = input_response(&outcome);
    assert_eq!(response.status, 200);
    assert_eq!(response.headers, vec![header("Content-Type", "application/json")]);
    assert_eq!(text_of(&response), "{\"status\":\"success\"}");
}

#[test]
fn unknown_action_is_rejected_without_a_command() {
    let outcome = parse_input(b"{\"action\":\"nonsense\"}");
    assert!(matches!(outcome, Err(ValidationError::InvalidAction)));
    let response = input_response(&outcome);
    assert_eq!(response.status, 400);
    assert!(response.headers.is_empty());
    assert_eq!(text_of(&response), "Invalid action");
}

#[test]
fn every_command_is_decoded() {
    assert!(matches!(
        parse_input(b"{\"action\":\"long_tap\",\"x\":1,\"y\":2,\"duration\":300}"),
        Ok(InputCommand::LongTap { x: 1, y: 2, duration: 300 })
    ));
    assert!(matches!(
        parse_input(
            b"{\"action\":\"swipe\",\"x1\":1,\"y1\":2,\"x2\":3,\"y2\":4,\"duration\":5}"
        ),
        Ok(InputCommand::Swipe { x1: 1, y1: 2, x2: 3, y2: 4, duration: 5 })
    ));
    match parse_input(b"{\"action\":\"keyevent\",\"keycode\":\"KEYCODE_HOME\",\"longpress\":true}")
    {
        Ok(InputCommand::KeyEvent { keycode, longpress }) => {
            assert_eq!(keycode, "KEYCODE_HOME");
            assert!(longpress);
        }
        other => panic!("unexpected {:?}", other),
    }
    match parse_input(b"{\"action\":\"text\",\"text\":\"h\\u00e9llo\"}") {
        Ok(InputCommand::Text { text }) => assert_eq!(text, "h\u{e9}llo"),
        other => panic!("unexpected {:?}", other),
    }
}

#[test]
fn body_that_is_no_json_object_is_invalid() {
    assert!(matches!(parse_input(b"{\"action\":"), Err(ValidationError::InvalidJson)));
    assert!(matches!(parse_input(b""), Err(ValidationError::InvalidJson)));
    assert!(matches!(parse_input(b"[1,2]"), Err(ValidationError::InvalidJson)));
    assert!(matches!(parse_input(b"\"tap\""), Err(ValidationError::InvalidJson)));
    assert!(matches!(parse_input(&[0xff, 0xfe]), Err(ValidationError::InvalidJson)));
    assert_eq!(text_of(&validation_response(ValidationError::InvalidJson)), "Invalid JSON");
}

#[test]
fn missing_action_is_rejected() {
    let outcome = parse_input(b"{\"x\":1,\"y\":2}");
    assert!(matches!(outcome, Err(ValidationError::MissingAction)));
    let response = input_response(&outcome);
    assert_eq!(response.status, 400);
    assert_eq!(text_of(&response), "Missing action");
}

#[test]
fn action_that_is_no_string_is_invalid() {
    assert!(matches!(parse_input(b"{\"action\":7}"), Err(ValidationError::InvalidAction)));
    assert!(matches!(parse_input(b"{\"action\":null}"), Err(ValidationError::InvalidAction)));
    assert!(matches!(parse_input(b"{\"action\":\"Tap\"}"), Err(ValidationError::InvalidAction)));
}

#[test]
fn missing_or_mistyped_field_is_rejected() {
    for body in [
        &b"{\"action\":\"tap\",\"x\":10}"[..],
        b"{\"action\":\"tap\",\"x\":10,\"y\":\"20\"}",
        b"{\"action\":\"tap\",\"x\":-1,\"y\":2}",
        b"{\"action\":\"tap\",\"x\":1.5,\"y\":2}",
        b"{\"action\":\"long_tap\",\"x\":1,\"y\":2}",
        b"{\"action\":\"swipe\",\"x1\":1,\"y1\":2,\"x2\":3,\"y2\":4}",
        b"{\"action\":\"keyevent\",\"keycode\":\"A\"}",
        b"{\"action\":\"keyevent\",\"keycode\":3,\"longpress\":false}",
        b"{\"action\":\"text\"}",
    ] {
        let outcome = parse_input(body);
        assert!(matches!(outcome, Err(ValidationError::MissingField)));
        assert_eq!(input_response(&outcome).status, 400);
    }
}

#[test]
fn coordinate_keeps_its_low_32_bits() {
    assert!(matches!(
        parse_input(b"{\"action\":\"tap\",\"x\":4294967296,\"y\":4294967301}"),
        Ok(InputCommand::Tap { x: 0, y: 5 })
    ));
    assert!(matches!(
        parse_input(b"{\"action\":\"tap\",\"x\":4294967295,\"y\":18446744073709551615}"),
        Ok(InputCommand::Tap { x: 4294967295, y: 4294967295 })
    ));
}

#[test]
fn members_decode_without_a_body() {
    let members = vec![
        ("y".to_string(), JsonField::Number(Some(4))),
        ("action".to_string(), JsonField::Text("tap".to_string())),
        ("x".to_string(), JsonField::Number(Some(3))),
        ("extra".to_string(), JsonField::Other),
    ];
    assert!(matches!(decode_input(&members), Ok(InputCommand::Tap { x: 3, y: 4 })));
    let members = vec![
        ("action".to_string(), JsonField::Text("tap".to_string())),
        ("x".to_string(), JsonField::Number(None)),
        ("y".to_string(), JsonField::Flag(true)),
    ];
    assert!(matches!(decode_input(&members), Err(ValidationError::MissingField)));
}

#[test]
fn relayed_routes_have_their_endpoints() {
    assert_eq!(
        aq_endpoint("127.0.0.1:64987", Route::AqStatus),
        Some("http://127.0.0.1:64987/status".to_string())
    );
    assert_eq!(
        aq_endpoint("host:1", Route::AqQueues),
        Some("http://host:1/queues".to_string())
    );
    assert_eq!(aq_endpoint("host:1", Route::AqRun), Some("http://host:1/run".to_string()));
    assert_eq!(aq_endpoint("host:1", Route::Frame), None);
    assert_eq!(aq_endpoint("host:1", Route::Input), None);
}

#[test]
fn run_request_is_passed_on_with_its_two_members() {
    assert_eq!(
        aq_run_request(b"{\"queue\":\"nightly\",\"iterations\":3,\"other\":true}"),
        Ok("{\"iterations\":3,\"queue\":\"nightly\"}".to_string())
    );
    assert_eq!(
        aq_run_request(b"{\"queue\":\"a\\\"b\",\"iterations\":0}"),
        Ok("{\"iterations\":0,\"queue\":\"a\\\"b\"}".to_string())
    );
}

#[test]
fn incomplete_run_request_is_invalid() {
    assert_eq!(aq_run_request(b"{\"queue\":\"nightly\"}"), Err(ValidationError::InvalidJson));
    assert_eq!(
        aq_run_request(b"{\"queue\":1,\"iterations\":3}"),
        Err(ValidationError::InvalidJson)
    );
    assert_eq!(aq_run_request(b"[]"), Err(ValidationError::InvalidJson));
    assert_eq!(aq_run_request(b"not json"), Err(ValidationError::InvalidJson));
}

#[test]
fn unreachable_service_is_reported_down() {
    let response = handle_aq_response(None).unwrap();
    assert_eq!(response.status, 200);
    assert_eq!(response.headers, vec![header("Content-Type", "application/json")]);
    assert_eq!(text_of(&response), "{\"status\":\"down\"}");
}

#[test]
fn service_answer_is_passed_on_with_status_up() {
    let upstream = serde_json::from_str("{\"queues\":[\"a\",\"b\"],\"load\":0.5}").unwrap();
    let response = handle_aq_response(Some(upstream)).unwrap();
    assert_eq!(response.status, 200);
    assert_eq!(response.headers, vec![header("Content-Type", "application/json")]);
    assert_eq!(text_of(&response), "{\"load\":0.5,\"queues\":[\"a\",\"b\"],\"status\":\"up\"}");
}

#[test]
fn service_status_is_overwritten() {
    let upstream = serde_json::from_str("{\"status\":\"idle\"}").unwrap();
    let response = handle_aq_response(Some(upstream)).unwrap();
    assert_eq!(text_of(&response), "{\"status\":\"up\"}");
}

#[test]
fn null_answer_counts_as_an_empty_object() {
    let response = handle_aq_response(Some(serde_json::Value::Null)).unwrap();
    assert_eq!(text_of(&response), "{\"status\":\"up\"}");
}

#[test]
fn answer_that_takes_no_member_gives_none() {
    let upstream = serde_json::from_str("[1,2,3]").unwrap();
    assert!(handle_aq_response(Some(upstream)).is_none());
    assert!(handle_aq_response(Some(serde_json::Value::from(5u64))).is_none());
    assert!(handle_aq_response(Some(serde_json::Value::from("up"))).is_none());
}

#[test]
fn asset_name_is_the_path_without_its_slash() {
    assert_eq!(asset_key("/index.html"), Some("index.html"));
    assert_eq!(asset_key("/css/site.css"), Some("css/site.css"));
    assert_eq!(asset_key("/"), Some(""));
    assert_eq!(asset_key(""), None);
    assert_eq!(asset_key("index.html"), None);
    assert_eq!(asset_key("/\u{e9}.txt"), Some("\u{e9}.txt"));
}

#[test]
fn asset_is_served_with_its_media_type() {
    let response = serve_asset("/css/site.css", Some(b"body{}".to_vec()));
    assert_eq!(response.status, 200);
    assert_eq!(response.headers, vec![header("Content-Type", "text/css")]);
    assert!(matches!(response.body, Body::Raw(ref bytes) if bytes == b"body{}"));
    let response = serve_asset("/blob", Some(vec![1, 2]));
    assert_eq!(response.headers, vec![header("Content-Type", "application/octet-stream")]);
}

#[test]
fn missing_asset_is_not_found() {
    let response = serve_asset("/missing.png", None);
    assert_eq!(response.status, 404);
    assert!(response.headers.is_empty());
    assert_eq!(text_of(&response), "Not Found");
}
