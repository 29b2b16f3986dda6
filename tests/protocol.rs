use tauri_mcp::protocol::{
    command_timeout_ms, invalid_request_response, respond, DispatchOutcome, Response, WindowContext,
    DEFAULT_COMMAND_TIMEOUT_MS,
};

fn parse(text: &str) -> serde_json::Value {
    serde_json::from_str(text).unwrap()
}

#[test]
fn response_serializes_success() {
    let response = Response {
        id: "req_1".to_string(),
        success: true,
        data: Some(r#"{"title":"My app"}"#.to_string()),
        error: None,
        window_context: None,
    };

    let json = response.to_json();
    let parsed = parse(&json);

    assert_eq!(parsed["id"], "req_1");
    assert_eq!(parsed["success"], true);
    assert_eq!(parsed["data"]["title"], "My app");
    assert!(parsed.get("error").is_none());
    assert!(parsed.get("context").is_none());
}

#[test]
fn response_serializes_error() {
    let response = Response {
        id: "req_2".to_string(),
        success: false,
        data: None,
        error: Some("Element not found: .submit-btn".to_string()),
        window_context: None,
    };

    let json = response.to_json();
    let parsed = parse(&json);

    assert_eq!(parsed["id"], "req_2");
    assert_eq!(parsed["success"], false);
    assert!(parsed.get("data").is_none());
    assert_eq!(parsed["error"], "Element not found: .submit-btn");
}

#[test]
fn response_serializes_with_window_context() {
    let response = Response {
        id: "req_3".to_string(),
        success: true,
        data: Some(r#""screenshot data""#.to_string()),
        error: None,
        window_context: Some(WindowContext { window_label: "main".to_string(), total_windows: 2 }),
    };

    let json = response.to_json();
    let parsed = parse(&json);

    assert_eq!(parsed["context"]["targetLabel"], "main");
    assert_eq!(parsed["context"]["totalTargets"], 2);
}

#[test]
fn response_omits_none_fields() {
    let response = Response {
        id: "req_4".to_string(),
        success: true,
        data: None,
        error: None,
        window_context: None,
    };

    let json = response.to_json();
    let parsed = parse(&json);

    assert!(parsed.get("data").is_none());
    assert!(parsed.get("error").is_none());
    assert!(parsed.get("context").is_none());
    assert_eq!(json, r#"{"id":"req_4","success":true}"#);
}

#[test]
fn window_context_uses_camel_case() {
    let context = WindowContext { window_label: "settings".to_string(), total_windows: 3 };

    let json = context.to_json();
    let parsed = parse(&json);

    assert!(parsed.get("targetLabel").is_some());
    assert!(parsed.get("totalTargets").is_some());
    assert!(parsed.get("target_label").is_none());
    assert!(parsed.get("total_targets").is_none());
}

#[test]
fn request_response_ids_match() {
    let request: serde_json::Value = parse(r#"{"id": "req_abc123", "command": "window_info"}"#);
    let id = request["id"].as_str().unwrap().to_string();

    let response = respond(
        id,
        DispatchOutcome::Completed(r#"{"width":800,"height":600}"#.to_string(), None),
    );

    let parsed = parse(&response.to_json());
    assert_eq!(parsed["id"], "req_abc123");
}

#[test]
fn response_handles_large_data() {
    let large_string = "x".repeat(100_000);
    let response = Response {
        id: "req_large".to_string(),
        success: true,
        data: Some(serde_json::to_string(&large_string).unwrap()),
        error: None,
        window_context: None,
    };

    let json = response.to_json();
    assert!(json.len() > 100_000);

    let parsed = parse(&json);
    assert_eq!(parsed["data"].as_str().unwrap().len(), 100_000);
}

#[test]
fn response_round_trip_recovers_escaped_id() {
    let id = "a\"b\\c\n\u{4e2d}";
    let response = respond(id.to_string(), DispatchOutcome::Failed("boom \"x\"".to_string()));
    let parsed = parse(&response.to_json());
    assert_eq!(parsed["id"], id);
    assert_eq!(parsed["error"], "boom \"x\"");
    assert_eq!(parsed.as_object().unwrap().len(), 3);
}

#[test]
fn respond_completed_keeps_data_and_context() {
    let ctx = WindowContext { window_label: "main".to_string(), total_windows: 1 };
    let r = respond("r1".to_string(), DispatchOutcome::Completed("42".to_string(), Some(ctx)));
    assert!(r.success);
    assert_eq!(r.data.as_deref(), Some("42"));
    assert!(r.error.is_none());
    assert_eq!(r.window_context.as_ref().unwrap().window_label, "main");
    assert_eq!(r.to_json(), r#"{"id":"r1","success":true,"data":42,"context":{"targetLabel":"main","totalTargets":1}}"#);
}

#[test]
fn respond_failed_has_no_context() {
    let r = respond("r2".to_string(), DispatchOutcome::Failed("nope".to_string()));
    assert!(!r.success);
    assert!(r.data.is_none());
    assert_eq!(r.error.as_deref(), Some("nope"));
    assert!(r.window_context.is_none());
}

#[test]
fn respond_timed_out_names_the_budget() {
    let r = respond("r3".to_string(), DispatchOutcome::TimedOut(10000));
    assert!(!r.success);
    assert_eq!(r.error.as_deref(), Some("Command timed out after 10000ms"));
}

#[test]
fn invalid_request_has_empty_id() {
    let r = invalid_request_response("expected value at line 1 column 2");
    assert_eq!(r.id, "");
    assert!(!r.success);
    assert_eq!(r.error.as_deref(), Some("Invalid request JSON: expected value at line 1 column 2"));
    assert_eq!(parse(&r.to_json())["id"], "");
}

#[test]
fn command_timeout_from_setting() {
    assert_eq!(command_timeout_ms(None), DEFAULT_COMMAND_TIMEOUT_MS);
    assert_eq!(command_timeout_ms(Some("2500")), 2500);
    assert_eq!(command_timeout_ms(Some("+7")), 7);
    assert_eq!(command_timeout_ms(Some("0")), 0);
    assert_eq!(command_timeout_ms(Some("18446744073709551615")), u64::MAX);
    assert_eq!(command_timeout_ms(Some("18446744073709551616")), 10000);
    assert_eq!(command_timeout_ms(Some("")), 10000);
    assert_eq!(command_timeout_ms(Some("+")), 10000);
    assert_eq!(command_timeout_ms(Some("-5")), 10000);
    assert_eq!(command_timeout_ms(Some("12ms")), 10000);
    assert_eq!(command_timeout_ms(Some(" 12")), 10000);
}
