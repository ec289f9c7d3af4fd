use clawtap::client::{ClientError, Frame, GatewayClient, HandshakeEvent, HandshakeStep, ReadAction, SessionState};
use clawtap::json::{JsonNumber, JsonValue};
use clawtap::ledger::Ledger;
use clawtap::message::{encode_message, parse_message, ChallengePayload, GatewayMessage};
use clawtap::record::record_message;

fn connected_client() -> GatewayClient {
    let mut c = GatewayClient::new("ws://127.0.0.1:18789", "tok").unwrap();
    c.connect();
    let step = c.on_handshake(HandshakeEvent::Received(GatewayMessage::Connected {
        session_id: "s1".to_string(),
    }));
    assert!(matches!(step, HandshakeStep::Established { .. }));
    c.run().unwrap();
    c
}

#[test]
fn test_message_serialization() {
    let msg = GatewayMessage::Connect {
        role: "observer".to_string(),
        version: "0.1.0".to_string(),
    };
    let json = encode_message(msg);
    assert!(json.contains("\"type\":\"connect\""));
    assert!(json.contains("observer"));
}

#[test]
fn tick_text_parses() {
    let m = parse_message("{\"type\":\"tick\",\"timestamp\":\"t1\"}");
    assert_eq!(m, Some(GatewayMessage::Tick { timestamp: "t1".to_string() }));
}

#[test]
fn challenge_text_parses() {
    let m = parse_message(
        "{\"type\":\"event\",\"event\":\"connect.challenge\",\"payload\":{\"nonce\":\"abc\",\"ts\":42}}",
    );
    assert_eq!(
        m,
        Some(GatewayMessage::ConnectChallenge {
            event: "connect.challenge".to_string(),
            payload: ChallengePayload { nonce: "abc".to_string(), ts: 42 },
        })
    );
}

#[test]
fn malformed_and_unknown_texts_give_nothing() {
    assert_eq!(parse_message("not json"), None);
    assert_eq!(parse_message("{\"type\":\"hello\"}"), None);
    assert_eq!(parse_message("{\"type\":\"tick\"}"), None);
    assert_eq!(parse_message("[1,2]"), None);
}

#[test]
fn tool_call_round_trips_through_text() {
    let args = JsonValue::Object(vec![(
        "n".to_string(),
        JsonValue::Number(JsonNumber::Unsigned(7)),
    )]);
    let m = GatewayMessage::ToolCall {
        run_id: "r1".to_string(),
        tool: "search".to_string(),
        args,
        span_id: "sp".to_string(),
    };
    let text = encode_message(m);
    let back = parse_message(&text).unwrap();
    let expected = GatewayMessage::ToolCall {
        run_id: "r1".to_string(),
        tool: "search".to_string(),
        args: JsonValue::Object(vec![(
            "n".to_string(),
            JsonValue::Number(JsonNumber::Unsigned(7)),
        )]),
        span_id: "sp".to_string(),
    };
    assert_eq!(back, expected);
}

#[test]
fn subscribe_round_trips_through_text() {
    let m = GatewayMessage::Subscribe { channels: vec!["a".to_string(), "b".to_string()] };
    let text = encode_message(m);
    assert!(text.contains("\"channels\":[\"a\",\"b\"]"));
    assert_eq!(
        parse_message(&text),
        Some(GatewayMessage::Subscribe { channels: vec!["a".to_string(), "b".to_string()] })
    );
}

#[test]
fn invalid_url_is_refused() {
    assert!(matches!(GatewayClient::new("not a url", "tok"), Err(ClientError::InvalidUrl)));
}

#[test]
fn url_is_normalised() {
    let c = GatewayClient::new("WS://Example.com:8080", "tok").unwrap();
    assert_eq!(c.url(), "ws://example.com:8080/");
    assert_eq!(c.state(), SessionState::Disconnected);
}

#[test]
fn challenge_handshake_yields_session() {
    let mut c = GatewayClient::new("ws://127.0.0.1:18789", "tok").unwrap();
    let hello = c.connect();
    assert_eq!(
        hello,
        GatewayMessage::Connect { role: "observer".to_string(), version: "0.1.0".to_string() }
    );
    let step = c.on_handshake(HandshakeEvent::Received(GatewayMessage::ConnectChallenge {
        event: "connect.challenge".to_string(),
        payload: ChallengePayload { nonce: "abc".to_string(), ts: 1 },
    }));
    match step {
        HandshakeStep::Send(m) => assert_eq!(
            m,
            GatewayMessage::Auth { token: "tok".to_string(), nonce: "abc".to_string() }
        ),
        other => panic!("unexpected step {:?}", other),
    }
    assert_eq!(c.state(), SessionState::Authenticating);
    let step = c.on_handshake(HandshakeEvent::Received(GatewayMessage::Connected {
        session_id: "s1".to_string(),
    }));
    match step {
        HandshakeStep::Established { subscribe, session_id } => {
            assert_eq!(session_id, "s1");
            assert_eq!(
                subscribe,
                GatewayMessage::Subscribe {
                    channels: vec![
                        "agent_events".to_string(),
                        "tool_calls".to_string(),
                        "outputs".to_string()
                    ],
                }
            );
        }
        other => panic!("unexpected step {:?}", other),
    }
    assert_eq!(c.session_id(), Some("s1"));
    assert_eq!(c.state(), SessionState::Subscribed);
}

#[test]
fn direct_connected_yields_session() {
    let mut c = GatewayClient::new("ws://h", "tok").unwrap();
    c.connect();
    let step = c.on_handshake(HandshakeEvent::Received(GatewayMessage::Connected {
        session_id: "s2".to_string(),
    }));
    assert!(matches!(step, HandshakeStep::Established { .. }));
    assert_eq!(c.session_id(), Some("s2"));
}

#[test]
fn handshake_failures_are_distinct() {
    let mut c = GatewayClient::new("ws://h", "tok").unwrap();
    c.connect();
    let step = c.on_handshake(HandshakeEvent::Received(GatewayMessage::Error {
        code: "401".to_string(),
        message: "no".to_string(),
    }));
    assert!(matches!(step, HandshakeStep::Failed(ClientError::AuthRejected)));
    c.connect();
    let step = c.on_handshake(HandshakeEvent::TimedOut);
    assert!(matches!(step, HandshakeStep::Failed(ClientError::HandshakeTimeout)));
    c.connect();
    let step = c.on_handshake(HandshakeEvent::Received(GatewayMessage::Tick {
        timestamp: "t".to_string(),
    }));
    assert!(matches!(step, HandshakeStep::Failed(ClientError::ProtocolViolation)));
    c.connect();
    let step = c.on_handshake(HandshakeEvent::TransportFailed);
    assert!(matches!(step, HandshakeStep::Failed(ClientError::TransportError)));
    assert_eq!(c.session_id(), None);
}

#[test]
fn reconnect_clears_session() {
    let mut c = connected_client();
    assert_eq!(c.session_id(), Some("s1"));
    c.connect();
    assert_eq!(c.session_id(), None);
    assert_eq!(c.state(), SessionState::Handshaking);
}

#[test]
fn run_needs_a_subscribed_connection() {
    let mut c = GatewayClient::new("ws://h", "tok").unwrap();
    assert_eq!(c.run(), Err(ClientError::NotConnected));
}

#[test]
fn malformed_frame_then_tick_records_one_tick() {
    let mut c = connected_client();
    let mut ledger = Ledger::open(10, 0, 0);
    let a = c.on_frame(Frame::Text("{{garbage".to_string()));
    assert!(matches!(a, ReadAction::Malformed));
    let a = c.on_frame(Frame::Text("{\"type\":\"tick\",\"timestamp\":\"t1\"}".to_string()));
    match a {
        ReadAction::Forward(m) => {
            assert_eq!(record_message(&mut ledger, "daemon", "s1", m, false), Ok(1));
        }
        other => panic!("unexpected action {:?}", other),
    }
    assert_eq!(ledger.total_events(), 1);
    let text = ledger.pending_text();
    assert_eq!(text.lines().count(), 1);
    assert!(text.contains("\"kind\":\"TICK\""));
    assert!(text.contains("\"timestamp\":\"t1\""));
    assert!(text.contains("\"sourceConnectionId\":\"s1\""));
}

#[test]
fn ping_close_and_binary_frames() {
    let mut c = connected_client();
    assert!(matches!(c.on_frame(Frame::Ping(vec![1, 2])), ReadAction::Reply(d) if d == vec![1, 2]));
    assert!(matches!(c.on_frame(Frame::Binary(vec![0])), ReadAction::Ignore));
    assert!(matches!(c.on_frame(Frame::Close), ReadAction::Disconnected));
    assert_eq!(c.state(), SessionState::Closed);
    assert!(matches!(c.on_frame(Frame::Close), ReadAction::Fail(ClientError::NotConnected)));
}

#[test]
fn sixth_read_error_in_a_row_is_fatal() {
    let mut c = connected_client();
    for _ in 0..5 {
        assert!(matches!(c.on_frame(Frame::ReadError), ReadAction::Pause));
    }
    assert!(matches!(c.on_frame(Frame::ReadError), ReadAction::Fail(ClientError::TransportError)));
}

#[test]
fn text_frame_resets_error_count() {
    let mut c = connected_client();
    for _ in 0..5 {
        assert!(matches!(c.on_frame(Frame::ReadError), ReadAction::Pause));
    }
    c.on_frame(Frame::Text("{\"type\":\"ping\"}".to_string()));
    assert!(matches!(c.on_frame(Frame::ReadError), ReadAction::Pause));
}
