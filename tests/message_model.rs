use acp_debugger::json::Json;
use acp_debugger::message::{AcpMessage, MessageType};
use acp_debugger::transport::{decode_line, TransportMessage};

#[test]
fn test_transport_message_variants() {
    let json_msg = TransportMessage::Json(Json::object(vec![(
        "jsonrpc".to_string(),
        Json::string("2.0"),
    )]));
    assert!(matches!(json_msg, TransportMessage::Json(_)));

    let closed = TransportMessage::Closed;
    assert!(matches!(closed, TransportMessage::Closed));

    let err = TransportMessage::ParseError {
        line: "bad json".into(),
        error: "expected value".into(),
    };
    assert!(matches!(err, TransportMessage::ParseError { .. }));
}

#[test]
fn test_parse_request() {
    let msg = AcpMessage::parse(
        "initialize",
        r#"{"jsonrpc":"2.0","id":0,"method":"initialize","params":{}}"#,
        false,
    );
    assert_eq!(msg.message_type, MessageType::Request);
    assert_eq!(msg.method.as_deref(), Some("initialize"));
    assert!(msg.id.is_some());
    assert!(msg.params.is_some());
    assert!(!msg.is_response);
}

#[test]
fn test_parse_response() {
    let msg = AcpMessage::parse(
        "initialize",
        r#"{"jsonrpc":"2.0","id":0,"result":{"protocolVersion":1}}"#,
        true,
    );
    assert_eq!(msg.message_type, MessageType::Response);
    assert!(msg.result.is_some());
    assert!(msg.is_response);
}

#[test]
fn test_parse_notification() {
    let msg = AcpMessage::parse(
        "session/update",
        r#"{"jsonrpc":"2.0","method":"session/update","params":{"sessionId":"abc"}}"#,
        true,
    );
    assert_eq!(msg.message_type, MessageType::Notification);
    assert!(msg.id.is_none());
    assert!(msg.method.is_some());
}

#[test]
fn test_parse_error() {
    let msg = AcpMessage::parse(
        "initialize",
        r#"{"jsonrpc":"2.0","id":0,"error":{"code":-32600,"message":"Invalid Request"}}"#,
        true,
    );
    assert_eq!(msg.message_type, MessageType::Error);
    assert!(msg.error.is_some());
    let err = msg.error.unwrap();
    assert_eq!(err.code, -32600);
    assert_eq!(err.message.as_str(), "Invalid Request");
}

#[test]
fn test_pretty_json() {
    let msg = AcpMessage::parse("test", r#"{"jsonrpc":"2.0","id":0}"#, false);
    let pretty = msg.pretty_json();
    assert!(pretty.contains('\n'));
    assert!(pretty.contains("jsonrpc"));
}

#[test]
fn classification_follows_the_table() {
    let cases = [
        (r#"{"id":1,"result":1,"error":{"code":1,"message":"m"}}"#, MessageType::Error),
        (r#"{"id":1,"method":"m","result":null}"#, MessageType::Response),
        (r#"{"id":1,"method":"m"}"#, MessageType::Request),
        (r#"{"method":"m","params":[]}"#, MessageType::Notification),
        (r#"{"id":1}"#, MessageType::Response),
        (r#"[1,2,3]"#, MessageType::Response),
        (r#"{"id":null,"method":7}"#, MessageType::Request),
        (r#"{"error":"plain"}"#, MessageType::Error),
    ];
    for (raw, expected) in cases {
        assert_eq!(AcpMessage::parse("t", raw, true).message_type, expected, "{raw}");
        assert_eq!(AcpMessage::parse("t", raw, false).message_type, expected, "{raw}");
    }
}

#[test]
fn malformed_payload_reads_as_empty_response() {
    let msg = AcpMessage::parse("broken", "{not json", true);
    assert_eq!(msg.message_type, MessageType::Response);
    assert!(msg.id.is_none() && msg.method.is_none() && msg.params.is_none());
    assert!(msg.result.is_none() && msg.error.is_none() && msg.jsonrpc_version.is_none());
    assert_eq!(msg.raw_json, "{not json");
    assert_eq!(msg.title, "broken");
    assert_eq!(msg.pretty_json(), "{not json");
    assert_eq!(msg.payload_json(), None);
}

#[test]
fn parse_reads_the_members() {
    let msg = AcpMessage::parse(
        "x",
        r#"{"jsonrpc":"2.0","id":5,"error":{"code":7,"message":"bad","data":{"k":1}}}"#,
        true,
    );
    assert_eq!(msg.jsonrpc_version.as_deref(), Some("2.0"));
    assert!(matches!(msg.id, Some(Json::UInt(5))));
    let err = msg.error.as_ref().unwrap();
    assert_eq!(err.code, 7);
    assert_eq!(err.message, "bad");
    assert!(matches!(err.data, Some(Json::Object(_))));
    let payload = msg.payload_json().unwrap();
    assert!(payload.contains("\"k\": 1"), "{payload}");
}

#[test]
fn error_without_code_has_no_details() {
    let msg = AcpMessage::parse("x", r#"{"id":1,"error":{"message":"no code"}}"#, true);
    assert_eq!(msg.message_type, MessageType::Error);
    assert!(msg.error.is_none());
}

#[test]
fn payload_prefers_params_then_result() {
    let with_params = AcpMessage::parse("x", r#"{"params":{"a":1},"result":{"b":2}}"#, true);
    assert!(with_params.payload_json().unwrap().contains("\"a\""));
    let with_result = AcpMessage::parse("x", r#"{"result":{"b":2}}"#, true);
    assert_eq!(with_result.payload_json().unwrap(), "{\n  \"b\": 2\n}");
}

#[test]
fn labels() {
    assert_eq!(MessageType::Request.label(), "Request");
    assert_eq!(MessageType::Response.label(), "Response");
    assert_eq!(MessageType::Notification.label(), "Notification");
    assert_eq!(MessageType::Error.label(), "Error");
    assert_eq!(AcpMessage::parse("t", "{}", true).direction_label(), "\u{2191} Incoming");
    assert_eq!(AcpMessage::parse("t", "{}", false).direction_label(), "\u{2193} Outgoing");
}

#[test]
fn pretty_json_indents() {
    let msg = AcpMessage::parse("t", r#"{"id":0}"#, false);
    assert_eq!(msg.pretty_json(), "{\n  \"id\": 0\n}");
}

#[test]
fn decode_line_cases() {
    assert!(decode_line(String::new()).is_none());
    match decode_line("not json".to_string()) {
        Some(TransportMessage::ParseError { line, error }) => {
            assert_eq!(line, "not json");
            assert!(!error.is_empty());
        }
        other => panic!("unexpected {other:?}"),
    }
    match decode_line(r#"{"a":-3,"b":1.5,"c":[true,null,"s"]}"#.to_string()) {
        Some(TransportMessage::Json(v)) => {
            assert_eq!(v.get_i64("a"), Some(-3));
            assert_eq!(v.get_u64("a"), None);
            assert!(v.has_field("b"));
            assert_eq!(v.get_u64("b"), None);
            assert!(v.has_field("c"));
            assert!(!v.has_field("d"));
        }
        other => panic!("unexpected {other:?}"),
    }
}

#[test]
fn later_duplicate_key_wins() {
    match decode_line(r#"{"k":"first","k":"second"}"#.to_string()) {
        Some(TransportMessage::Json(v)) => assert_eq!(v.get_str("k").as_deref(), Some("second")),
        other => panic!("unexpected {other:?}"),
    }
    let mut v = Json::object(vec![
        ("k".to_string(), Json::string("first")),
        ("j".to_string(), Json::UInt(1)),
        ("k".to_string(), Json::string("second")),
    ]);
    assert_eq!(v.get_str("k").as_deref(), Some("second"));
    assert!(matches!(v.take_field("k"), Some(Json::Str(s)) if s == "second"));
    assert_eq!(v.get_u64("j"), Some(1));
}

#[test]
fn from_json_classifies_the_given_value() {
    let value = Json::object(vec![
        ("id".to_string(), Json::UInt(3)),
        ("method".to_string(), Json::string("m")),
    ]);
    let msg = AcpMessage::from_json("t", "raw text", value, false);
    assert_eq!(msg.message_type, MessageType::Request);
    assert_eq!(msg.method.as_deref(), Some("m"));
    assert_eq!(msg.raw_json, "raw text");
    let msg = AcpMessage::from_json("t", "", Json::Null, true);
    assert_eq!(msg.message_type, MessageType::Response);
}

#[test]
fn blank_lines_are_skipped() {
    assert!(decode_line("   ".to_string()).is_none());
    assert!(decode_line(" \t\r".to_string()).is_none());
    assert!(matches!(
        decode_line(" x ".to_string()),
        Some(TransportMessage::ParseError { .. })
    ));
    assert!(matches!(decode_line("  {} ".to_string()), Some(TransportMessage::Json(_))));
}
