use clipshot::bridge::session::{client_missing, unreadable_body};
use clipshot::bridge::{
    BackendReply, BackendRequest, ForeignOutcome, Invocation, PythonBridge,
};
use clipshot::error::BridgeError;
use serde_json::{Number, Value};

fn sample_payload() -> Value {
    let mut inner = serde_json::Map::new();
    inner.insert("width".to_string(), Value::Number(Number::from(1920u64)));
    inner.insert("height".to_string(), Value::Number(Number::from(1080u64)));
    let mut object = serde_json::Map::new();
    object.insert("title".to_string(), Value::String("Epic \"Victory\"".to_string()));
    object.insert("size".to_string(), Value::Object(inner));
    object.insert(
        "tags".to_string(),
        Value::Array(vec![
            Value::String("gaming".to_string()),
            Value::Bool(true),
            Value::Null,
            Value::Number(Number::from(-7i64)),
        ]),
    );
    Value::Object(object)
}

fn degraded_bridge() -> PythonBridge {
    let mut bridge = PythonBridge::new();
    let _ = bridge.settle_invocation(ForeignOutcome::SessionLost("gone".to_string()));
    bridge
}

#[test]
fn new_bridge_is_initialized_and_usable() {
    let bridge = PythonBridge::new();
    assert!(bridge.is_initialized());
    assert!(bridge.is_usable());
    let bridge = PythonBridge::default();
    assert!(bridge.is_initialized());
    assert!(bridge.is_usable());
}

#[test]
fn request_goes_to_the_backend_with_the_payload_as_json() {
    let bridge = PythonBridge::new();
    let mut object = serde_json::Map::new();
    object.insert("a".to_string(), Value::Number(Number::from(1u64)));
    let request = bridge
        .fastapi_request("/api/v1/clips", &Value::Object(object))
        .unwrap();
    assert_eq!(request.url, "http://localhost:8000/api/v1/clips");
    assert_eq!(request.body, "{\"a\":1}");
}

#[test]
fn request_body_is_the_json_text_of_each_kind_of_value() {
    let bridge = PythonBridge::new();
    assert_eq!(bridge.fastapi_request("/x", &Value::Null).unwrap().body, "null");
    assert_eq!(bridge.fastapi_request("/x", &Value::Bool(false)).unwrap().body, "false");
    assert_eq!(
        bridge
            .fastapi_request("/x", &Value::String("hi".to_string()))
            .unwrap()
            .body,
        "\"hi\""
    );
    assert_eq!(
        bridge
            .fastapi_request("/x", &Value::Array(vec![Value::Null, Value::Bool(true)]))
            .unwrap()
            .body,
        "[null,true]"
    );
}

#[test]
fn request_to_an_endpoint_keeps_the_endpoint_as_written() {
    let request = BackendRequest::to_endpoint("/x", "{}".to_string());
    assert_eq!(request.url, "http://localhost:8000/x");
    assert_eq!(request.body, "{}");
    let request = BackendRequest::to_endpoint("", "[]".to_string());
    assert_eq!(request.url, "http://localhost:8000");
    assert_eq!(request.body, "[]");
}

#[test]
fn response_body_is_parsed_into_a_value() {
    let bridge = PythonBridge::new();
    let value = bridge
        .fastapi_response(BackendReply::Body("{\"ok\": true, \"n\": [1, 2]}".to_string()))
        .unwrap();
    assert_eq!(value.get("ok"), Some(&Value::Bool(true)));
    assert_eq!(
        value.get("n"),
        Some(&Value::Array(vec![
            Value::Number(Number::from(1u64)),
            Value::Number(Number::from(2u64)),
        ]))
    );
}

#[test]
fn response_that_is_not_json_is_a_parse_error() {
    let bridge = PythonBridge::new();
    for body in ["", "<html>", "{\"a\":", "{} trailing", "nul"] {
        match bridge.fastapi_response(BackendReply::Body(body.to_string())) {
            Err(BridgeError::ParseError(message)) => {
                assert!(message.starts_with("Failed to parse JSON: "));
                assert!(message.len() > "Failed to parse JSON: ".len());
            }
            other => panic!("unexpected result for {:?}: {:?}", body, other),
        }
    }
}

#[test]
fn parse_error_carries_the_parser_account() {
    let bridge = PythonBridge::new();
    let expected = serde_json::from_str::<Value>("{\"a\":").unwrap_err().to_string();
    match bridge.fastapi_response(BackendReply::Body("{\"a\":".to_string())) {
        Err(BridgeError::ParseError(message)) => {
            assert_eq!(message, format!("Failed to parse JSON: {}", expected))
        }
        other => panic!("unexpected result: {:?}", other),
    }
}

#[test]
fn failed_transfer_is_a_network_error() {
    let bridge = PythonBridge::new();
    match bridge.fastapi_response(BackendReply::TransportFailed("connection refused".to_string())) {
        Err(BridgeError::Network(message)) => assert_eq!(message, "connection refused"),
        other => panic!("unexpected result: {:?}", other),
    }
    match bridge.fastapi_response(BackendReply::ClientMissing("No module named 'requests'".to_string())) {
        Err(BridgeError::Network(message)) => assert_eq!(
            message,
            "Failed to import requests: No module named 'requests'"
        ),
        other => panic!("unexpected result: {:?}", other),
    }
}

#[test]
fn failure_messages_are_built_from_the_account() {
    match client_missing("boom") {
        BridgeError::Network(message) => assert_eq!(message, "Failed to import requests: boom"),
        other => panic!("unexpected error: {:?}", other),
    }
    match unreadable_body("EOF") {
        BridgeError::ParseError(message) => assert_eq!(message, "Failed to parse JSON: EOF"),
        other => panic!("unexpected error: {:?}", other),
    }
    assert_eq!(unreadable_body("").message(), "Failed to parse JSON: ");
}

#[test]
fn echoing_backend_round_trips_the_payload() {
    let bridge = PythonBridge::new();
    let payload = sample_payload();
    let mut seen_url = String::new();
    let result = bridge.call_fastapi("/x", &payload, |request: BackendRequest| {
        seen_url = request.url.clone();
        BackendReply::Body(request.body)
    });
    assert_eq!(seen_url, "http://localhost:8000/x");
    assert_eq!(result.unwrap(), payload);
}

#[test]
fn echoing_backend_round_trips_simple_values() {
    let bridge = PythonBridge::new();
    for payload in [
        Value::Null,
        Value::Bool(true),
        Value::Number(Number::from(0u64)),
        Value::Number(Number::from(u64::MAX)),
        Value::Number(Number::from(i64::MIN)),
        Value::String(String::new()),
        Value::String("line\nbreak \u{1F980}".to_string()),
        Value::Array(Vec::new()),
        Value::Object(serde_json::Map::new()),
    ] {
        let result = bridge.call_fastapi("/x", &payload, |request: BackendRequest| {
            BackendReply::Body(request.body)
        });
        assert_eq!(result.unwrap(), payload);
    }
}

#[test]
fn call_fastapi_reports_what_the_transport_reports() {
    let bridge = PythonBridge::new();
    let result = bridge.call_fastapi("/x", &Value::Null, |_request: BackendRequest| {
        BackendReply::TransportFailed("timed out".to_string())
    });
    match result {
        Err(BridgeError::Network(message)) => assert_eq!(message, "timed out"),
        other => panic!("unexpected result: {:?}", other),
    }
    let result = bridge.call_fastapi("/x", &Value::Null, |_request: BackendRequest| {
        BackendReply::Body("not json".to_string())
    });
    assert!(matches!(result, Err(BridgeError::ParseError(_))));
}

#[test]
fn degraded_bridge_fails_fast() {
    let bridge = degraded_bridge();
    assert!(bridge.is_initialized());
    assert!(!bridge.is_usable());
    match bridge.fastapi_request("/x", &Value::Null) {
        Err(BridgeError::RuntimeFault(message)) => assert_eq!(message, "Python bridge is degraded"),
        other => panic!("unexpected result: {:?}", other),
    }
    let mut called = false;
    let result = bridge.call_fastapi("/x", &Value::Null, |request: BackendRequest| {
        called = true;
        BackendReply::Body(request.body)
    });
    assert!(!called);
    match result {
        Err(BridgeError::RuntimeFault(message)) => assert_eq!(message, "Python bridge is degraded"),
        other => panic!("unexpected result: {:?}", other),
    }
}

#[test]
fn invocation_names_object_method_and_arguments() {
    let mut bridge = PythonBridge::new();
    let args = sample_payload();
    let mut seen: Option<(String, String, Value)> = None;
    let result = bridge.invoke_plugin_method("plugin_3", "get_status", args.clone(), |call: Invocation| {
        seen = Some((call.object, call.method, call.args));
        ForeignOutcome::Returned(Value::String("healthy".to_string()))
    });
    assert_eq!(result.unwrap(), Value::String("healthy".to_string()));
    assert_eq!(
        seen,
        Some(("plugin_3".to_string(), "get_status".to_string(), args))
    );
    assert!(bridge.is_usable());
}

#[test]
fn invocation_failures_map_to_bridge_errors() {
    let mut bridge = PythonBridge::new();
    let result = bridge.invoke_plugin_method("p", "m", Value::Null, |_call: Invocation| {
        ForeignOutcome::ObjectMissing("no object p".to_string())
    });
    assert!(matches!(result, Err(BridgeError::NotFound(m)) if m == "no object p"));
    let result = bridge.invoke_plugin_method("p", "m", Value::Null, |_call: Invocation| {
        ForeignOutcome::MethodMissing("no method m".to_string())
    });
    assert!(matches!(result, Err(BridgeError::NotFound(m)) if m == "no method m"));
    let result = bridge.invoke_plugin_method("p", "m", Value::Null, |_call: Invocation| {
        ForeignOutcome::ArgumentRejected("bad argument".to_string())
    });
    assert!(matches!(result, Err(BridgeError::MarshalError(m)) if m == "bad argument"));
    let result = bridge.invoke_plugin_method("p", "m", Value::Null, |_call: Invocation| {
        ForeignOutcome::ResultRejected("bad result".to_string())
    });
    assert!(matches!(result, Err(BridgeError::MarshalError(m)) if m == "bad result"));
    let result = bridge.invoke_plugin_method("p", "m", Value::Null, |_call: Invocation| {
        ForeignOutcome::Raised("ValueError".to_string())
    });
    assert!(matches!(result, Err(BridgeError::RuntimeFault(m)) if m == "ValueError"));
    assert!(bridge.is_usable());
}

#[test]
fn lost_session_degrades_the_bridge_for_later_calls() {
    let mut bridge = PythonBridge::new();
    let result = bridge.invoke_plugin_method("p", "m", Value::Null, |_call: Invocation| {
        ForeignOutcome::SessionLost("interpreter died".to_string())
    });
    assert!(matches!(result, Err(BridgeError::RuntimeFault(m)) if m == "interpreter died"));
    assert!(!bridge.is_usable());
    let mut called = false;
    let result = bridge.invoke_plugin_method("p", "m", Value::Null, |_call: Invocation| {
        called = true;
        ForeignOutcome::Returned(Value::Null)
    });
    assert!(!called);
    assert!(matches!(result, Err(BridgeError::RuntimeFault(m)) if m == "Python bridge is degraded"));
}

#[test]
fn settle_invocation_keeps_a_healthy_session_healthy() {
    let mut bridge = PythonBridge::new();
    assert_eq!(
        bridge.settle_invocation(ForeignOutcome::Returned(Value::Bool(true))).unwrap(),
        Value::Bool(true)
    );
    assert!(bridge
        .settle_invocation(ForeignOutcome::Raised("x".to_string()))
        .is_err());
    assert!(bridge.is_usable());
}

#[test]
fn payload_nested_beyond_the_parser_limit_does_not_come_back() {
    let bridge = PythonBridge::new();
    let mut payload = Value::Array(Vec::new());
    let mut depth = 0;
    while depth < 200 {
        payload = Value::Array(vec![payload]);
        depth += 1;
    }
    let result = bridge.call_fastapi("/x", &payload, |request: BackendRequest| {
        BackendReply::Body(request.body)
    });
    match result {
        Err(BridgeError::ParseError(message)) => {
            assert!(message.starts_with("Failed to parse JSON: recursion limit exceeded"))
        }
        other => panic!("unexpected result: {:?}", other),
    }
}
