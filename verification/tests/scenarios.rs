use c2_proto::client::{C2Client, ClientAmbient};
use c2_proto::commands::CommandContext;
use c2_proto::crypto::{compute_auth_signature, compute_cmd_signature};
use c2_proto::error::ProtocolError;
use c2_proto::framing::{read_frame, write_frame, DEFAULT_MAX_FRAME_SIZE};
use c2_proto::handler::{
    Ambient, ConnectionAction, ConnectionEvent, ConnectionHandler, ConnectionPhase,
};
use c2_proto::hexcode::decode_hex;
use c2_proto::json::JsonValue;
use c2_proto::messages::{Message, MessagePayload};
use c2_proto::session::{SessionManager, NANOS_PER_SEC};
use std::time::Instant;

fn shared_key() -> Vec<u8> {
    decode_hex(&"deadbeef".repeat(4)).unwrap()
}

fn server(allowed: Vec<String>) -> ConnectionHandler {
    ConnectionHandler::new(
        SessionManager::new(shared_key(), allowed, 120, 300),
        CommandContext { server_start_time: Instant::now(), version: "0.1.0".to_string() },
        DEFAULT_MAX_FRAME_SIZE,
        30,
        30,
        60,
    )
}

fn frame_of(m: &Message) -> Vec<u8> {
    let mut bytes = Vec::new();
    write_frame(&mut bytes, m).unwrap();
    bytes
}

fn received(bytes: &[u8]) -> ConnectionEvent {
    match read_frame(bytes, DEFAULT_MAX_FRAME_SIZE) {
        Ok((m, _)) => ConnectionEvent::Received(m),
        Err(e) => ConnectionEvent::Failed(e),
    }
}

fn reply_of(action: ConnectionAction) -> Message {
    match action {
        ConnectionAction::Reply(m) => read_frame(&frame_of(&m), DEFAULT_MAX_FRAME_SIZE).unwrap().0,
        other => panic!("expected a reply, got {:?}", other),
    }
}

fn rejection_of(action: ConnectionAction) -> String {
    match action {
        ConnectionAction::Reject(m) => match m.payload {
            MessagePayload::Error(p) => {
                assert_eq!(m.msg_type, "err");
                assert!(p.code.is_none());
                p.error
            }
            other => panic!("expected an error notice, got {:?}", other),
        },
        other => panic!("expected a rejection, got {:?}", other),
    }
}

fn error_of(m: &Message) -> String {
    match &m.payload {
        MessagePayload::Resp(p) => {
            assert_eq!(m.msg_type, "resp");
            assert_eq!(p.status, "error");
            assert!(p.result.is_none());
            p.error.clone().unwrap()
        }
        other => panic!("expected a response, got {:?}", other),
    }
}

fn env(unix_time: i64, clock: u128, nonce: &str) -> Ambient {
    Ambient {
        unix_time,
        iso8601: "2001-09-09T01:46:40+00:00".to_string(),
        clock,
        uptime_secs: 42,
        nonce: nonce.to_string(),
    }
}

fn session_of(phase: &ConnectionPhase) -> String {
    match phase {
        ConnectionPhase::Authenticated { session_id } => session_id.clone(),
        other => panic!("expected an authenticated connection, got {:?}", other),
    }
}

fn connected(handler: &mut ConnectionHandler, client: &mut C2Client) -> ConnectionPhase {
    let hello = client.authenticate(None).unwrap().unwrap();
    let (phase, action) = handler.handle(handler.accept(), received(&frame_of(&hello)));
    let auth = client.authenticate(Some(reply_of(action))).unwrap().unwrap();
    let (phase, action) = handler.handle(phase, received(&frame_of(&auth)));
    assert_eq!(client.authenticate(Some(reply_of(action))).unwrap().map(|m| m.msg_type), None);
    phase
}

fn text_args(text: &str) -> JsonValue {
    JsonValue::Object(vec![("text".to_string(), JsonValue::Str(text.to_string()))])
}

#[test]
fn handshake_yields_a_session() {
    let mut handler = server(vec![]);
    let mut client = C2Client::new("c1".to_string(), shared_key(), 30, 30);
    assert!(!client.is_authenticated());

    let hello = client.authenticate(None).unwrap().unwrap();
    assert_eq!(hello.msg_type, "hello");
    let (phase, action) = handler.handle(handler.accept(), received(&frame_of(&hello)));
    assert!(matches!(&phase, ConnectionPhase::AwaitingAuth { client_id, server_nonce }
        if client_id == "c1" && server_nonce.len() == 32));
    let challenge = reply_of(action);
    assert_eq!(challenge.msg_type, "challenge");

    let auth = client.authenticate(Some(challenge)).unwrap().unwrap();
    assert_eq!(auth.msg_type, "auth");
    let (phase, action) = handler.handle(phase, received(&frame_of(&auth)));
    let auth_ok = reply_of(action);
    assert_eq!(auth_ok.msg_type, "auth_ok");
    assert_eq!(auth_ok.seq, Some(0));
    let session_id = auth_ok.session_id.clone().unwrap();
    assert_eq!(session_id.len(), 32);
    assert!(session_id.chars().all(|c| matches!(c, '0'..='9' | 'a'..='f')));
    assert_eq!(session_of(&phase), session_id);

    assert!(client.authenticate(Some(auth_ok)).unwrap().is_none());
    assert!(client.is_authenticated());
    assert_eq!(client.sequence(), 0);
}

#[test]
fn echo_is_answered() {
    let mut handler = server(vec![]);
    let mut client = C2Client::new("c1".to_string(), shared_key(), 30, 30);
    let phase = connected(&mut handler, &mut client);
    let session_id = session_of(&phase);

    let cmd = client.send_command("ECHO", text_args("hi")).unwrap();
    assert_eq!(cmd.seq, Some(1));
    assert_eq!(client.sequence(), 1);
    let (phase, action) = handler.handle(phase, received(&frame_of(&cmd)));
    assert_eq!(session_of(&phase), session_id);
    let resp = reply_of(action);
    assert_eq!(resp.msg_type, "resp");
    assert_eq!(resp.seq, Some(1));
    assert_eq!(resp.session_id.as_deref(), Some(session_id.as_str()));
    assert!(matches!(&resp.payload, MessagePayload::Resp(p) if p.status == "success" && p.error.is_none()));
    assert!(client.response_in_order(&resp));
    assert_eq!(
        C2Client::read_response(resp),
        Ok(JsonValue::Object(vec![("echo".to_string(), JsonValue::Str("hi".to_string()))]))
    );
}

#[test]
fn a_replayed_command_is_a_sequence_violation() {
    let mut handler = server(vec![]);
    let mut client = C2Client::new("c1".to_string(), shared_key(), 30, 30);
    let phase = connected(&mut handler, &mut client);

    let frame = frame_of(&client.send_command("ECHO", text_args("hi")).unwrap());
    let (phase, action) = handler.handle(phase, received(&frame));
    assert!(C2Client::read_response(reply_of(action)).is_ok());

    let (phase, action) = handler.handle(phase, received(&frame));
    let resp = reply_of(action);
    assert_eq!(resp.seq, Some(1));
    assert_eq!(error_of(&resp), "Sequence number violation: expected > 1, got 1");
    assert_eq!(
        C2Client::read_response(resp),
        Err(ProtocolError::AuthFailed("Sequence number violation: expected > 1, got 1".to_string()))
    );
    // the connection goes on
    let next = client.send_command("PING", JsonValue::Object(vec![])).unwrap();
    assert_eq!(next.seq, Some(2));
    let (_, action) = handler.handle(phase, received(&frame_of(&next)));
    assert!(C2Client::read_response(reply_of(action)).is_ok());
}

#[test]
fn a_tampered_signature_is_refused_and_the_session_goes_on() {
    let mut handler = server(vec![]);
    let mut client = C2Client::new("c1".to_string(), shared_key(), 30, 30);
    let phase = connected(&mut handler, &mut client);

    let mut cmd = client.send_command("ECHO", text_args("hi")).unwrap();
    if let MessagePayload::Cmd(p) = &mut cmd.payload {
        let mut bytes = p.sig.clone().into_bytes();
        bytes[10] = if bytes[10] == b'0' { b'1' } else { b'0' };
        p.sig = String::from_utf8(bytes).unwrap();
    }
    let (phase, action) = handler.handle(phase, received(&frame_of(&cmd)));
    let resp = reply_of(action);
    assert_eq!(resp.seq, Some(1));
    assert_eq!(error_of(&resp), "Invalid signature");
    // the connection goes on with the next sequence number
    let next = client.send_command("ECHO", text_args("again")).unwrap();
    assert_eq!(next.seq, Some(2));
    let (_, action) = handler.handle(phase, received(&frame_of(&next)));
    assert_eq!(
        C2Client::read_response(reply_of(action)),
        Ok(JsonValue::Object(vec![("echo".to_string(), JsonValue::Str("again".to_string()))]))
    );
}

#[test]
fn a_slow_handshake_is_closed_with_a_notice() {
    let mut handler = server(vec![]);
    let (phase, action) = handler.handle(handler.accept(), ConnectionEvent::AuthTimeout);
    assert!(matches!(phase, ConnectionPhase::Closed));
    assert_eq!(rejection_of(action), "Authentication timeout");

    let mut client = C2Client::new("c1".to_string(), shared_key(), 30, 30);
    let hello = client.authenticate(None).unwrap().unwrap();
    let (phase, _) = handler.handle(handler.accept(), received(&frame_of(&hello)));
    let (phase, action) = handler.handle(phase, ConnectionEvent::AuthTimeout);
    assert!(matches!(phase, ConnectionPhase::Closed));
    assert_eq!(rejection_of(action), "Authentication timeout");
    // closed stays closed
    let (phase, action) = handler.handle(phase, received(&frame_of(&hello)));
    assert!(matches!(phase, ConnectionPhase::Closed));
    assert!(matches!(action, ConnectionAction::Close));
}

#[test]
fn the_handshake_refuses_what_is_out_of_place() {
    let mut handler = server(vec!["c1".to_string()]);
    // not a hello
    let (phase, action) = handler.handle_at(
        handler.accept(),
        ConnectionEvent::Received(Message::ping().at(1000)),
        env(1000, 0, "n0"),
    );
    assert!(matches!(phase, ConnectionPhase::Closed));
    assert_eq!(rejection_of(action), "Authentication failed: Invalid message type: ping");
    // tag and payload disagree
    let (_, action) = handler.handle_at(
        handler.accept(),
        ConnectionEvent::Received(Message::stamped("hello", 1000, Message::ping().payload)),
        env(1000, 0, "n0"),
    );
    assert_eq!(rejection_of(action), "Authentication failed: Invalid message type: expected hello");
    // a client that is not on the list
    let (_, action) = handler.handle_at(
        handler.accept(),
        ConnectionEvent::Received(Message::hello("c2".to_string()).at(1000)),
        env(1000, 0, "n0"),
    );
    assert_eq!(rejection_of(action), "Authentication failed: Authentication failed: client not allowed");
    // a transport failure before the hello
    let (_, action) = handler.handle_at(
        handler.accept(),
        ConnectionEvent::Failed(ProtocolError::Io("read timeout".to_string())),
        env(1000, 0, "n0"),
    );
    assert_eq!(rejection_of(action), "Authentication failed: IO error: read timeout");
    let (_, action) = handler.handle_at(
        handler.accept(),
        ConnectionEvent::Failed(ProtocolError::FrameTooLarge(9, 8)),
        env(1000, 0, "n0"),
    );
    assert_eq!(rejection_of(action), "Authentication failed: Frame too large: 9 bytes (max: 8)");
}

fn challenged(handler: &mut ConnectionHandler) -> ConnectionPhase {
    let (phase, action) = handler.handle_at(
        handler.accept(),
        ConnectionEvent::Received(Message::hello("c1".to_string()).at(1000)),
        env(1000, 0, "server-nonce"),
    );
    match action {
        ConnectionAction::Reply(m) => {
            assert_eq!(m.ts, 1000);
            assert!(matches!(&m.payload, MessagePayload::Challenge(p) if p.server_nonce == "server-nonce"));
        }
        other => panic!("expected the challenge, got {:?}", other),
    }
    phase
}

fn auth_message(client_id: &str, server_nonce: &str, client_nonce: &str, ts: i64) -> Message {
    let sig = compute_auth_signature(&shared_key(), client_id, server_nonce, client_nonce);
    Message::auth(client_id.to_string(), server_nonce.to_string(), client_nonce.to_string(), sig).at(ts)
}

#[test]
fn the_auth_step_checks_in_order() {
    let mut handler = server(vec![]);
    let cases: Vec<(Message, &str)> = vec![
        (Message::hello("c1".to_string()).at(1000), "Invalid message type: hello"),
        (auth_message("c1", "server-nonce", "cn", 2000), "Timestamp out of bounds: 2000"),
        (auth_message("c1", "server-nonce", "cn", -2000), "Timestamp out of bounds: -2000"),
        (Message::stamped("auth", 1000, Message::ping().payload), "Invalid message type: expected auth"),
        (auth_message("c2", "server-nonce", "cn", 1000), "Authentication failed: client_id mismatch"),
        (auth_message("c1", "other-nonce", "cn", 1000), "Authentication failed: server_nonce mismatch"),
        (
            Message::auth("c1".to_string(), "server-nonce".to_string(), "cn".to_string(), "00".to_string()).at(1000),
            "Invalid signature",
        ),
    ];
    for (message, expected) in cases {
        let phase = challenged(&mut handler);
        let (phase, action) =
            handler.handle_at(phase, ConnectionEvent::Received(message), env(1000, 5, "sid-1"));
        assert!(matches!(phase, ConnectionPhase::Closed));
        assert_eq!(rejection_of(action), format!("Authentication failed: {}", expected));
    }
    // the attempt with the wrong signature entered its nonce key in the ledger
    let phase = challenged(&mut handler);
    let (_, action) = handler.handle_at(
        phase,
        ConnectionEvent::Received(auth_message("c1", "server-nonce", "cn", 1000)),
        env(1000, 6, "sid-1"),
    );
    assert_eq!(rejection_of(action), "Authentication failed: Replay attack detected");
    // once it has expired the same nonces pass
    let phase = challenged(&mut handler);
    let (phase, action) = handler.handle_at(
        phase,
        ConnectionEvent::Received(auth_message("c1", "server-nonce", "cn", 1000)),
        env(1000, 5 + 300 * NANOS_PER_SEC, "sid-1"),
    );
    assert_eq!(session_of(&phase), "sid-1");
    match action {
        ConnectionAction::Reply(m) => {
            assert_eq!(m.msg_type, "auth_ok");
            assert_eq!(m.ts, 1000);
            assert_eq!(m.session_id.as_deref(), Some("sid-1"));
            assert_eq!(m.seq, Some(0));
        }
        other => panic!("expected auth_ok, got {:?}", other),
    }
}

fn authenticated(handler: &mut ConnectionHandler, session_id: &str) -> (ConnectionPhase, Vec<u8>) {
    let phase = challenged(handler);
    let (phase, _) = handler.handle_at(
        phase,
        ConnectionEvent::Received(auth_message("c1", "server-nonce", session_id, 1000)),
        env(1000, 5, session_id),
    );
    assert_eq!(session_of(&phase), session_id);
    let key = c2_proto::crypto::derive_session_key(&shared_key(), session_id, "server-nonce", session_id);
    (phase, key)
}

fn command(key: &[u8], session_id: &str, seq: u64, cmd: &str, args: JsonValue, ts: i64) -> Message {
    let sig = compute_cmd_signature(key, session_id, seq, "n", cmd, &args);
    Message::cmd(session_id.to_string(), seq, "n".to_string(), cmd.to_string(), args, sig).at(ts)
}

#[test]
fn commands_are_checked_then_run() {
    let mut handler = server(vec![]);
    let (phase, key) = authenticated(&mut handler, "sid-a");

    let (phase, action) = handler.handle_at(
        phase,
        ConnectionEvent::Received(command(&key, "sid-a", 1, "STATUS", JsonValue::Object(vec![]), 1000)),
        env(1001, 9, "unused"),
    );
    match action {
        ConnectionAction::Reply(m) => {
            assert_eq!(m.ts, 1001);
            assert_eq!(m.seq, Some(1));
            assert_eq!(
                C2Client::read_response(m),
                Ok(JsonValue::Object(vec![
                    ("version".to_string(), JsonValue::Str("0.1.0".to_string())),
                    ("uptime_secs".to_string(), JsonValue::from_u64(42)),
                    ("status".to_string(), JsonValue::Str("running".to_string())),
                ]))
            );
        }
        other => panic!("expected a response, got {:?}", other),
    }

    let cases: Vec<(Message, u64, &str)> = vec![
        (Message::stamped("cmd", 1000, Message::ping().payload), 0, "Invalid message type: expected cmd"),
        (
            Message::stamped("cmd", 1000, command(&key, "sid-a", 2, "PING", JsonValue::Object(vec![]), 1000).payload)
                .with_nonce("n".to_string()),
            0,
            "Invalid message type: cmd missing seq",
        ),
        (
            Message::stamped("cmd", 1000, command(&key, "sid-a", 2, "PING", JsonValue::Object(vec![]), 1000).payload)
                .with_session("sid-a".to_string(), 2),
            2,
            "Invalid message type: cmd missing nonce",
        ),
        (command(&key, "sid-a", 2, "PING", JsonValue::Object(vec![]), 5000), 2, "Timestamp out of bounds: 5000"),
        (command(&key, "sid-a", 1, "PING", JsonValue::Object(vec![]), 1000), 1, "Sequence number violation: expected > 1, got 1"),
        (command(&key, "sid-a", 2, "NOPE", JsonValue::Object(vec![]), 1000), 2, "Unknown command: NOPE"),
        (command(&key, "sid-a", 3, "ECHO", JsonValue::Object(vec![]), 1000), 3, "ECHO requires 'text' argument"),
        (command(b"wrong key", "sid-a", 4, "PING", JsonValue::Object(vec![]), 1000), 4, "Invalid signature"),
    ];
    let mut phase = phase;
    for (message, seq, expected) in cases {
        let (next, action) =
            handler.handle_at(phase, ConnectionEvent::Received(message), env(1000, 9, "unused"));
        assert_eq!(session_of(&next), "sid-a");
        match action {
            ConnectionAction::Reply(m) => {
                assert_eq!(m.seq, Some(seq));
                assert_eq!(m.session_id.as_deref(), Some("sid-a"));
                assert_eq!(error_of(&m), expected);
            }
            other => panic!("expected a response, got {:?}", other),
        }
        phase = next;
    }
    // the sequence number of the command with the wrong signature is used up
    let (_, action) = handler.handle_at(
        phase,
        ConnectionEvent::Received(command(&key, "sid-a", 4, "PING", JsonValue::Object(vec![]), 1000)),
        env(1000, 9, "unused"),
    );
    assert_eq!(error_of(&reply_of(action)), "Sequence number violation: expected > 4, got 4");
}

#[test]
fn heartbeats_and_other_messages_in_a_session() {
    let mut handler = server(vec![]);
    let (phase, key) = authenticated(&mut handler, "sid-b");
    let (phase, action) = handler.handle_at(
        phase,
        ConnectionEvent::Received(Message::ping().at(0)),
        env(1000, 9, "unused"),
    );
    match action {
        ConnectionAction::Reply(m) => {
            assert_eq!(m.msg_type, "pong");
            assert_eq!(m.ts, 1000);
            assert!(m.session_id.is_none() && m.seq.is_none() && m.nonce.is_none());
            assert_eq!(C2Client::read_pong(&m), Ok(()));
        }
        other => panic!("expected a pong, got {:?}", other),
    }
    for event in [
        ConnectionEvent::Received(Message::hello("c1".to_string())),
        ConnectionEvent::Received(Message::pong()),
        ConnectionEvent::Failed(ProtocolError::InvalidMessageType("bogus".to_string())),
        ConnectionEvent::AuthTimeout,
    ] {
        let (next, action) = handler.handle(ConnectionPhase::Authenticated { session_id: "sid-b".to_string() }, event);
        assert_eq!(session_of(&next), "sid-b");
        assert!(matches!(action, ConnectionAction::Continue));
    }
    // a failure of the transport ends the connection and the session
    let (phase, action) =
        handler.handle(phase, ConnectionEvent::Failed(ProtocolError::Io("closed".to_string())));
    assert!(matches!(phase, ConnectionPhase::Closed));
    assert!(matches!(action, ConnectionAction::Close));
    let (_, action) = handler.handle_at(
        ConnectionPhase::Authenticated { session_id: "sid-b".to_string() },
        ConnectionEvent::Received(command(&key, "sid-b", 1, "PING", JsonValue::Object(vec![]), 1000)),
        env(1000, 9, "unused"),
    );
    assert_eq!(error_of(&reply_of(action)), "Session not found: sid-b");
    // so does a frame that cannot be read
    let (phase, _) = authenticated(&mut handler, "sid-c");
    let (phase, action) = handler.handle(phase, received(&[0, 0, 0, 1, b'x']));
    assert!(matches!(phase, ConnectionPhase::Closed));
    assert!(matches!(action, ConnectionAction::Close));
}

#[test]
fn handler_keeps_its_limits() {
    let handler = server(vec![]);
    assert_eq!(handler.max_frame_size(), DEFAULT_MAX_FRAME_SIZE);
    assert_eq!(handler.read_timeout_secs(), 30);
    assert_eq!(handler.write_timeout_secs(), 30);
    assert_eq!(handler.auth_timeout_secs(), 60);
    let ambient = handler.ambient();
    assert_eq!(ambient.nonce.len(), 32);
    assert!(ambient.unix_time > 1_600_000_000);
    assert_ne!(handler.ambient().nonce, ambient.nonce);
}

#[test]
fn the_client_follows_the_handshake() {
    let mut client = C2Client::new("c1".to_string(), b"psk".to_vec(), 7, 8);
    assert_eq!(client.max_frame_size(), DEFAULT_MAX_FRAME_SIZE);
    assert_eq!(client.read_timeout_secs(), 7);
    assert_eq!(client.write_timeout_secs(), 8);
    // nothing was started
    assert_eq!(
        client.authenticate(Some(Message::challenge("sn".to_string()))).err(),
        Some(ProtocolError::AuthFailed("handshake not started".to_string()))
    );
    assert_eq!(
        client.send_command("PING", JsonValue::Object(vec![])).err(),
        Some(ProtocolError::AuthFailed("not authenticated".to_string()))
    );
    assert_eq!(client.sequence(), 0);

    let at = |t: i64, n: &str| ClientAmbient { unix_time: t, nonce: n.to_string() };
    let hello = client.authenticate_at(None, at(10, "x")).unwrap().unwrap();
    assert_eq!(hello.ts, 10);
    assert!(matches!(&hello.payload, MessagePayload::Hello(p) if p.client_id == "c1"));
    // a wrong answer fails the handshake, which then has to start over
    assert_eq!(
        client.authenticate_at(Some(Message::pong()), at(10, "x")).err(),
        Some(ProtocolError::InvalidMessageType("pong".to_string()))
    );
    assert_eq!(
        client.authenticate_at(Some(Message::challenge("sn".to_string())), at(10, "x")).err(),
        Some(ProtocolError::AuthFailed("handshake not started".to_string()))
    );
    client.authenticate_at(None, at(10, "x")).unwrap();
    assert_eq!(
        client
            .authenticate_at(Some(Message::stamped("challenge", 1, Message::pong().payload)), at(10, "x"))
            .err(),
        Some(ProtocolError::InvalidMessageType("expected challenge".to_string()))
    );
    client.authenticate_at(None, at(10, "x")).unwrap();
    let auth = client
        .authenticate_at(Some(Message::challenge("sn".to_string())), at(11, "cn"))
        .unwrap()
        .unwrap();
    assert_eq!(auth.ts, 11);
    assert!(matches!(&auth.payload, MessagePayload::Auth(p)
        if p.client_id == "c1" && p.server_nonce == "sn" && p.client_nonce == "cn"
            && p.sig == compute_auth_signature(b"psk", "c1", "sn", "cn")));
    assert_eq!(
        client.authenticate_at(Some(Message::stamped("auth_ok", 1, Message::pong().payload)), at(12, "y")).err(),
        Some(ProtocolError::AuthFailed("no session_id in auth_ok".to_string()))
    );
    assert!(!client.is_authenticated());

    client.authenticate_at(None, at(10, "x")).unwrap();
    client.authenticate_at(Some(Message::challenge("sn".to_string())), at(11, "cn")).unwrap();
    assert_eq!(
        client.authenticate_at(Some(Message::hello("z".to_string())), at(12, "y")).err(),
        Some(ProtocolError::InvalidMessageType("hello".to_string()))
    );
    client.authenticate_at(None, at(10, "x")).unwrap();
    client.authenticate_at(Some(Message::challenge("sn".to_string())), at(11, "cn")).unwrap();
    assert!(client.authenticate_at(Some(Message::auth_ok("sid".to_string())), at(12, "y")).unwrap().is_none());
    assert!(client.is_authenticated());

    let key = c2_proto::crypto::derive_session_key(b"psk", "sid", "sn", "cn");
    let cmd = client.send_command_at("ECHO", text_args("hi"), at(13, "n1")).unwrap();
    assert_eq!(cmd.ts, 13);
    assert_eq!(cmd.seq, Some(1));
    assert_eq!(cmd.nonce.as_deref(), Some("n1"));
    assert_eq!(cmd.session_id.as_deref(), Some("sid"));
    assert!(matches!(&cmd.payload, MessagePayload::Cmd(p)
        if p.cmd == "ECHO" && p.args == text_args("hi")
            && p.sig == compute_cmd_signature(&key, "sid", 1, "n1", "ECHO", &text_args("hi"))));
    let second = client.send_command_at("PING", JsonValue::Object(vec![]), at(14, "n2")).unwrap();
    assert_eq!(second.seq, Some(2));
    assert_eq!(client.sequence(), 2);
    // a new handshake starts the counter again
    client.authenticate_at(None, at(10, "x")).unwrap();
    client.authenticate_at(Some(Message::challenge("sn".to_string())), at(11, "cn")).unwrap();
    client.authenticate_at(Some(Message::auth_ok("sid2".to_string())), at(12, "y")).unwrap();
    assert_eq!(client.sequence(), 0);
}

#[test]
fn the_client_reads_answers_permissively() {
    let client = C2Client::new("c1".to_string(), b"psk".to_vec(), 7, 8);
    let answer = Message::resp("sid".to_string(), 9, "success".to_string(), Some(JsonValue::Bool(true)));
    assert!(!client.response_in_order(&answer));
    assert!(client.response_in_order(&Message::resp("s".to_string(), 0, "x".to_string(), None)));
    assert!(!client.response_in_order(&Message::pong()));
    assert_eq!(C2Client::read_response(answer), Ok(JsonValue::Bool(true)));
    assert_eq!(
        C2Client::read_response(Message::resp("sid".to_string(), 9, "success".to_string(), None)),
        Ok(JsonValue::Null)
    );
    assert_eq!(
        C2Client::read_response(Message::resp("sid".to_string(), 9, "error".to_string(), None)),
        Err(ProtocolError::AuthFailed("unknown error".to_string()))
    );
    assert_eq!(
        C2Client::read_response(Message::resp_error("sid".to_string(), 9, "why".to_string())),
        Err(ProtocolError::AuthFailed("why".to_string()))
    );
    assert_eq!(
        C2Client::read_response(Message::pong()),
        Err(ProtocolError::InvalidMessageType("pong".to_string()))
    );
    assert_eq!(
        C2Client::read_response(Message::stamped("resp", 1, Message::pong().payload)),
        Err(ProtocolError::InvalidMessageType("expected resp".to_string()))
    );
    let ping = client.ping();
    assert_eq!(ping.msg_type, "ping");
    assert!(matches!(ping.payload, MessagePayload::Ping(_)));
    assert_eq!(client.ping_at(4).ts, 4);
    assert_eq!(C2Client::read_pong(&Message::pong()), Ok(()));
    assert_eq!(
        C2Client::read_pong(&Message::ping()),
        Err(ProtocolError::InvalidMessageType("ping".to_string()))
    );
    assert_eq!(ClientAmbient::read().nonce.len(), 32);
}
