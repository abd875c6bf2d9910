use acp_debugger::agent::{AgentConfig, AgentStatus, AuthMethod};
use acp_debugger::connection::{AcpConnection, ConnectionEvent, Effect};
use acp_debugger::error::ClientError;
use acp_debugger::json::Json;
use acp_debugger::message::{AcpMessage, MessageType};
use acp_debugger::session::new_session_result;
use acp_debugger::transport::{decode_line, TransportMessage};

fn config(endpoint: &str) -> AgentConfig {
    AgentConfig {
        id: "a1".to_string(),
        name: "Agent".to_string(),
        endpoint: endpoint.to_string(),
        args: vec![],
        env: vec![],
        auth: AuthMethod::NoAuth,
        timeout_ms: 1000,
    }
}

fn frame(text: &str) -> TransportMessage {
    decode_line(text.to_string()).expect("a frame")
}

fn states(effects: &[Effect]) -> Vec<AgentStatus> {
    effects
        .iter()
        .filter_map(|e| match e {
            Effect::Emit(ConnectionEvent::StateChanged(s)) => Some(*s),
            _ => None,
        })
        .collect()
}

fn resolutions(effects: &[Effect]) -> Vec<u64> {
    effects
        .iter()
        .filter_map(|e| match e {
            Effect::Resolve { request_id, .. } => Some(*request_id),
            _ => None,
        })
        .collect()
}

/// A connection whose handshake went out as request 0.
fn connecting() -> (AcpConnection, Vec<Effect>) {
    let mut conn = AcpConnection::new();
    let first = conn.connect(config("/bin/agent"));
    assert!(matches!(first.as_slice(), [_, Effect::Spawn]));
    let effects = conn.transport_ready();
    (conn, effects)
}

/// A connection whose handshake has succeeded.
fn connected() -> AcpConnection {
    let (mut conn, _) = connecting();
    let (go_on, _) =
        conn.handle_transport_message(frame(r#"{"jsonrpc":"2.0","id":0,"result":{}}"#));
    assert!(go_on);
    assert_eq!(conn.status(), AgentStatus::Connected);
    conn
}

#[test]
fn spawn_failure_ends_in_error() {
    let mut conn = AcpConnection::new();
    assert_eq!(conn.status(), AgentStatus::Disconnected);
    let effects = conn.connect(config("/nonexistent/agent"));
    assert_eq!(states(&effects), vec![AgentStatus::Connecting]);
    assert!(matches!(effects.last(), Some(Effect::Spawn)));
    let effects = conn.spawn_failed();
    assert_eq!(effects.len(), 1);
    assert_eq!(states(&effects), vec![AgentStatus::Error]);
    assert_eq!(conn.status(), AgentStatus::Error);
    assert_eq!(conn.config().map(|c| c.endpoint.as_str()), Some("/nonexistent/agent"));
}

#[test]
fn connect_is_ignored_while_connecting_or_connected() {
    let (mut conn, _) = connecting();
    assert!(conn.connect(config("/other")).is_empty());
    assert_eq!(conn.status(), AgentStatus::Connecting);
    let mut conn = connected();
    assert!(conn.connect(config("/other")).is_empty());
    assert_eq!(conn.config().map(|c| c.endpoint.as_str()), Some("/bin/agent"));
}

#[test]
fn initialize_handshake_connects() {
    let (mut conn, effects) = connecting();
    assert_eq!(effects.len(), 2);
    let line = match &effects[1] {
        Effect::Send { request_id: Some(0), line } => line.clone(),
        other => panic!("unexpected {other:?}"),
    };
    let sent = AcpMessage::parse("initialize", &line, false);
    assert_eq!(sent.message_type, MessageType::Request);
    assert_eq!(sent.method.as_deref(), Some("initialize"));
    let params = sent.params.as_ref().unwrap();
    assert_eq!(params.get_u64("protocolVersion"), Some(1));
    assert!(params.has_field("clientCapabilities") && params.has_field("clientInfo"));
    match &effects[0] {
        Effect::Emit(ConnectionEvent::MessageCaptured { message, is_incoming }) => {
            assert!(!is_incoming);
            assert_eq!(message.raw_json, line);
        }
        other => panic!("unexpected {other:?}"),
    }

    let (go_on, effects) = conn.handle_transport_message(frame(
        r#"{"jsonrpc":"2.0","id":0,"result":{"protocolVersion":1}}"#,
    ));
    assert!(go_on);
    assert!(matches!(
        &effects[0],
        Effect::Emit(ConnectionEvent::MessageCaptured { is_incoming: true, .. })
    ));
    match &effects[1] {
        Effect::Resolve { request_id: 0, outcome: Ok(result) } => {
            assert_eq!(result.get_u64("protocolVersion"), Some(1));
        }
        other => panic!("unexpected {other:?}"),
    }
    assert_eq!(states(&effects), vec![AgentStatus::Connected]);
    assert_eq!(conn.status(), AgentStatus::Connected);
}

#[test]
fn failed_handshake_ends_in_error() {
    let (mut conn, _) = connecting();
    let (_, effects) = conn.handle_transport_message(frame(
        r#"{"jsonrpc":"2.0","id":0,"error":{"code":1,"message":"no"}}"#,
    ));
    assert_eq!(states(&effects), vec![AgentStatus::Error]);
    assert_eq!(conn.status(), AgentStatus::Error);
}

#[test]
fn session_notification_is_passed_on() {
    let mut conn = connected();
    let (_, pending) = conn.send_request("session/prompt", Json::Null);
    assert_eq!(resolutions(&pending), Vec::<u64>::new());
    let (go_on, effects) = conn.handle_transport_message(frame(
        r#"{"jsonrpc":"2.0","method":"session/update","params":{"sessionId":"abc","update":{}}}"#,
    ));
    assert!(go_on);
    assert_eq!(effects.len(), 2);
    match &effects[1] {
        Effect::Emit(ConnectionEvent::SessionNotification { session_id, method, params }) => {
            assert_eq!(session_id, "abc");
            assert_eq!(method, "session/update");
            assert!(params.has_field("update"));
        }
        other => panic!("unexpected {other:?}"),
    }
    assert!(resolutions(&effects).is_empty());
    // the request in flight is still there to be answered
    let (_, effects) =
        conn.handle_transport_message(frame(r#"{"jsonrpc":"2.0","id":1,"result":null}"#));
    assert_eq!(resolutions(&effects), vec![1]);
}

#[test]
fn notification_without_session_is_only_captured() {
    let mut conn = connected();
    let (_, effects) = conn
        .handle_transport_message(frame(r#"{"jsonrpc":"2.0","method":"ping","params":{}}"#));
    assert_eq!(effects.len(), 1);
    let (_, effects) =
        conn.handle_transport_message(frame(r#"{"jsonrpc":"2.0","method":"ping"}"#));
    assert_eq!(effects.len(), 1);
}

#[test]
fn agent_error_is_passed_through() {
    let mut conn = connected();
    let (id, _) = conn.send_request("authenticate", Json::Null);
    assert_eq!(id, 1);
    let (_, effects) = conn.handle_transport_message(frame(
        r#"{"jsonrpc":"2.0","id":1,"error":{"code":-32600,"message":"Invalid Request"}}"#,
    ));
    match &effects[1] {
        Effect::Resolve {
            request_id: 1,
            outcome: Err(ClientError::AgentError { code, message, data }),
        } => {
            assert_eq!(*code, -32600);
            assert_eq!(message, "Invalid Request");
            assert!(data.is_none());
        }
        other => panic!("unexpected {other:?}"),
    }
    assert_eq!(conn.status(), AgentStatus::Connected);
}

#[test]
fn error_object_without_details_gets_defaults() {
    let mut conn = connected();
    conn.send_request("x", Json::Null);
    let (_, effects) =
        conn.handle_transport_message(frame(r#"{"id":1,"error":"broken"}"#));
    assert!(matches!(
        &effects[1],
        Effect::Resolve { outcome: Err(ClientError::AgentError { code: 0, message, data: None }), .. }
            if message == "unknown error"
    ));
}

#[test]
fn disconnect_cancels_pending_requests() {
    let mut conn = connected();
    let (a, _) = conn.send_request("one", Json::Null);
    let (b, _) = conn.send_request("two", Json::Null);
    let effects = conn.disconnect();
    assert!(matches!(effects[0], Effect::KillTransport));
    assert!(matches!(effects[1], Effect::StopPump));
    let cancelled: Vec<u64> = effects
        .iter()
        .filter_map(|e| match e {
            Effect::Resolve { request_id, outcome: Err(ClientError::Cancelled(tag)) } => {
                assert_eq!(request_id, tag);
                Some(*tag)
            }
            _ => None,
        })
        .collect();
    assert_eq!(cancelled, vec![a, b]);
    assert_eq!(states(&effects), vec![AgentStatus::Disconnected]);
    assert_eq!(conn.status(), AgentStatus::Disconnected);
    assert!(conn.config().is_none());
}

#[test]
fn disconnect_twice_is_like_once() {
    let mut conn = connected();
    conn.send_request("one", Json::Null);
    let first = conn.disconnect();
    assert_eq!(resolutions(&first), vec![1]);
    let second = conn.disconnect();
    assert_eq!(second.len(), 1);
    assert_eq!(states(&second), vec![AgentStatus::Disconnected]);
    assert_eq!(conn.status(), AgentStatus::Disconnected);
    assert_eq!(conn.next_request_id(), 2);
    let mut fresh = AcpConnection::new();
    assert_eq!(fresh.disconnect().len(), 1);
}

#[test]
fn request_ids_start_at_zero_and_increase() {
    let mut conn = AcpConnection::new();
    let ids: Vec<u64> = (0..4).map(|_| conn.send_request("m", Json::Null).0).collect();
    assert_eq!(ids, vec![0, 1, 2, 3]);
    let (mut conn, _) = connecting();
    let (a, _) = conn.send_request("m", Json::Null);
    conn.disconnect();
    let (b, _) = conn.send_request("m", Json::Null);
    assert_eq!((a, b), (1, 2));
}

#[test]
fn request_without_transport_fails_at_once() {
    let mut conn = AcpConnection::new();
    let (id, effects) = conn.send_request("m", Json::UInt(3));
    assert_eq!(id, 0);
    assert!(matches!(
        &effects[1],
        Effect::Resolve { request_id: 0, outcome: Err(ClientError::NotConnected) }
    ));
    // nothing is in flight, so an answer resolves nothing
    conn.connect(config("/bin/agent"));
    conn.transport_ready();
    let (_, effects) = conn.handle_transport_message(frame(r#"{"id":0,"result":1}"#));
    assert!(resolutions(&effects).is_empty());
}

#[test]
fn a_response_resolves_once() {
    let mut conn = connected();
    conn.send_request("m", Json::Null);
    let (_, first) = conn.handle_transport_message(frame(r#"{"id":1,"result":2}"#));
    assert_eq!(resolutions(&first), vec![1]);
    assert!(matches!(&first[1], Effect::Resolve { outcome: Ok(Json::UInt(2)), .. }));
    let (_, second) = conn.handle_transport_message(frame(r#"{"id":1,"result":2}"#));
    assert!(resolutions(&second).is_empty());
    assert!(conn.disconnect().iter().all(|e| !matches!(e, Effect::Resolve { .. })));
}

#[test]
fn response_with_bad_id_is_dropped() {
    let mut conn = connected();
    conn.send_request("m", Json::Null);
    for text in [r#"{"id":"1","result":1}"#, r#"{"id":-1,"result":1}"#, r#"{"result":1}"#] {
        let (go_on, effects) = conn.handle_transport_message(frame(text));
        assert!(go_on);
        assert_eq!(effects.len(), 2);
        assert!(matches!(&effects[1], Effect::DroppedResponse { raw } if raw.contains("\"result\":1")));
    }
    assert_eq!(resolutions(&conn.disconnect()), vec![1]);
}

#[test]
fn null_error_member_is_an_agent_error() {
    let mut conn = connected();
    conn.send_request("m", Json::Null);
    // an error member makes a frame a response; here it is checked first
    let (_, effects) = conn.handle_transport_message(frame(r#"{"id":1,"error":null}"#));
    assert!(matches!(&effects[1], Effect::Resolve { outcome: Err(_), .. }));
}

#[test]
fn parse_errors_and_close() {
    let mut conn = connected();
    let (go_on, effects) = conn.handle_transport_message(frame("garbage"));
    assert!(go_on && effects.is_empty());
    let (go_on, effects) = conn.handle_transport_message(TransportMessage::Closed);
    assert!(!go_on && effects.is_empty());
}

#[test]
fn end_of_output_fails_requests_in_flight() {
    let (mut conn, _) = connecting();
    conn.send_request("m", Json::Null);
    let effects = conn.finish_pump();
    let closed: Vec<u64> = effects
        .iter()
        .filter_map(|e| match e {
            Effect::Resolve { request_id, outcome: Err(ClientError::TransportClosed) } => {
                Some(*request_id)
            }
            _ => None,
        })
        .collect();
    assert_eq!(closed, vec![0, 1]);
    assert_eq!(states(&effects), vec![AgentStatus::Error, AgentStatus::Disconnected]);
    assert_eq!(conn.status(), AgentStatus::Disconnected);
    assert!(conn.finish_pump().is_empty());
}

#[test]
fn send_failure_resolves_the_request() {
    let (mut conn, _) = connecting();
    let (id, _) = conn.send_request("m", Json::Null);
    let effects = conn.send_failed(id, ClientError::TransportClosed);
    assert!(matches!(
        &effects[..],
        [Effect::Resolve { outcome: Err(ClientError::TransportClosed), .. }]
    ));
    assert!(conn.send_failed(id, ClientError::TransportClosed).is_empty());
    let effects = conn.send_failed(0, ClientError::SendFailed("pipe".to_string()));
    assert_eq!(states(&effects), vec![AgentStatus::Error]);
}

#[test]
fn notifications_need_a_transport() {
    let conn = AcpConnection::new();
    let (effects, result) = conn.send_notification("session/cancel", Json::Null);
    assert_eq!(effects.len(), 1);
    assert!(matches!(result, Err(ClientError::NotConnected)));
    let conn = connected();
    let (effects, result) = conn.cancel("s1");
    assert!(result.is_ok());
    match &effects[1] {
        Effect::Send { request_id: None, line } => {
            let msg = AcpMessage::parse("session/cancel", line, false);
            assert_eq!(msg.message_type, MessageType::Notification);
            assert_eq!(msg.params.unwrap().get_str("sessionId").as_deref(), Some("s1"));
            assert!(line.contains("\"jsonrpc\":\"2.0\""), "{line}");
        }
        other => panic!("unexpected {other:?}"),
    }
}

#[test]
fn request_envelope_round_trips_as_request() {
    let mut conn = connected();
    let (id, effects) = conn.send_request("custom/method", Json::object(vec![]));
    let line = match &effects[1] {
        Effect::Send { line, .. } => line.clone(),
        other => panic!("unexpected {other:?}"),
    };
    assert_eq!(line, r#"{"id":1,"jsonrpc":"2.0","method":"custom/method","params":{}}"#);
    let msg = AcpMessage::parse("custom/method", &line, false);
    assert_eq!(msg.message_type, MessageType::Request);
    assert!(matches!(msg.id, Some(Json::UInt(n)) if n == id));
}

#[test]
fn session_requests() {
    let mut conn = connected();
    let (id, effects) = conn.new_session("/work");
    assert_eq!(id, 1);
    let line = match &effects[1] {
        Effect::Send { line, .. } => line.clone(),
        other => panic!("unexpected {other:?}"),
    };
    let msg = AcpMessage::parse("session/new", &line, false);
    assert_eq!(msg.method.as_deref(), Some("session/new"));
    assert_eq!(msg.params.unwrap().get_str("cwd").as_deref(), Some("/work"));

    let (_, effects) = conn.prompt("s1", vec![Json::string("hi")]);
    match &effects[1] {
        Effect::Send { line, .. } => {
            assert!(line.contains("\"prompt\":[\"hi\"]"), "{line}");
            assert!(line.contains("\"method\":\"session/prompt\""), "{line}");
        }
        other => panic!("unexpected {other:?}"),
    }
    let (_, effects) = conn.authenticate("api_key", Json::string("k"));
    match &effects[1] {
        Effect::Send { line, .. } => {
            assert!(line.contains("\"credentials\":\"k\""), "{line}");
            assert!(line.contains("\"method\":\"authenticate\""), "{line}");
        }
        other => panic!("unexpected {other:?}"),
    }
}

#[test]
fn session_id_from_result() {
    let ok = Json::object(vec![("sessionId".to_string(), Json::string("s-9"))]);
    assert_eq!(new_session_result(Ok(ok)).unwrap(), "s-9");
    let missing = Json::object(vec![("other".to_string(), Json::UInt(1))]);
    assert!(matches!(new_session_result(Ok(missing)), Err(ClientError::ParseError(_))));
    assert!(matches!(
        new_session_result(Err(ClientError::Cancelled(4))),
        Err(ClientError::Cancelled(4))
    ));
}

#[test]
fn handle_response_directly() {
    let mut conn = connected();
    let (id, _) = conn.send_request("x", Json::Null);
    let value = match frame(r#"{"jsonrpc":"2.0","id":1,"error":{"code":-32600,"message":"Invalid Request"}}"#) {
        TransportMessage::Json(v) => v,
        other => panic!("unexpected {other:?}"),
    };
    let effects = conn.handle_response(id, value);
    assert!(matches!(
        &effects[..],
        [Effect::Resolve { request_id: 1, outcome: Err(ClientError::AgentError { code: -32600, message, data: None }) }]
            if message == "Invalid Request"
    ));
    assert!(conn.handle_response(id, Json::Null).is_empty());
}

#[test]
fn failed_write_puts_flight_back() {
    let mut conn = connected();
    let (id, _) = conn.send_request("x", Json::Null);
    let effects = conn.send_failed(id, ClientError::TransportClosed);
    assert_eq!(resolutions(&effects), vec![id]);
    assert_eq!(conn.status(), AgentStatus::Connected);
    assert_eq!(conn.next_request_id(), id + 1);
    assert!(resolutions(&conn.disconnect()).is_empty());
}

#[test]
fn handshake_only_while_connecting() {
    let (mut conn, _) = connecting();
    assert_eq!(conn.handshake_id(), Some(0));
    conn.handle_transport_message(frame(r#"{"id":0,"result":{}}"#));
    assert_eq!(conn.handshake_id(), None);
    let mut other = AcpConnection::new();
    other.connect(config("/bin/agent"));
    other.spawn_failed();
    assert_eq!(other.handshake_id(), None);
    assert_eq!(other.status(), AgentStatus::Error);
}
