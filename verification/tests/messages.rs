use c2_proto::error::ProtocolError;
use c2_proto::json::JsonValue;
use c2_proto::messages::{
    AuthPayload, CmdPayload, ErrPayload, Message, MessagePayload, RespPayload,
};
use c2_proto::wire::{decode_payload, encode_payload};

fn through_the_wire(m: &Message) -> Message {
    let bytes = encode_payload(m).unwrap();
    decode_payload(&bytes).unwrap()
}

fn same_message(a: &Message, b: &Message) -> bool {
    format!("{:?}", a) == format!("{:?}", b)
}

fn malformed() -> ProtocolError {
    ProtocolError::Json("document is not a well-formed message".to_string())
}

#[test]
fn constructors_set_tag_and_envelope() {
    let hello = Message::hello("c1".to_string());
    assert_eq!(hello.msg_type, "hello");
    assert!(hello.nonce.is_none() && hello.session_id.is_none() && hello.seq.is_none());
    assert!(matches!(&hello.payload, MessagePayload::Hello(p) if p.client_id == "c1"));

    let challenge = Message::challenge("sn".to_string());
    assert_eq!(challenge.msg_type, "challenge");
    assert!(matches!(&challenge.payload, MessagePayload::Challenge(p) if p.server_nonce == "sn"));

    let auth = Message::auth("c1".to_string(), "sn".to_string(), "cn".to_string(), "s".to_string());
    assert_eq!(auth.msg_type, "auth");
    assert!(matches!(&auth.payload, MessagePayload::Auth(AuthPayload { client_id, server_nonce, client_nonce, sig })
        if client_id == "c1" && server_nonce == "sn" && client_nonce == "cn" && sig == "s"));

    let ok = Message::auth_ok("sid".to_string());
    assert_eq!(ok.msg_type, "auth_ok");
    assert_eq!(ok.session_id.as_deref(), Some("sid"));
    assert_eq!(ok.seq, Some(0));
    assert!(matches!(&ok.payload, MessagePayload::AuthOk(p) if p.message == "Authentication successful"));

    let cmd = Message::cmd(
        "sid".to_string(),
        3,
        "n".to_string(),
        "PING".to_string(),
        JsonValue::Object(vec![]),
        "sig".to_string(),
    );
    assert_eq!(cmd.msg_type, "cmd");
    assert_eq!(cmd.session_id.as_deref(), Some("sid"));
    assert_eq!(cmd.seq, Some(3));
    assert_eq!(cmd.nonce.as_deref(), Some("n"));
    assert!(matches!(&cmd.payload, MessagePayload::Cmd(CmdPayload { cmd, args, sig })
        if cmd == "PING" && *args == JsonValue::Object(vec![]) && sig == "sig"));

    let resp = Message::resp("sid".to_string(), 3, "success".to_string(), Some(JsonValue::Bool(true)));
    assert_eq!(resp.msg_type, "resp");
    assert_eq!(resp.seq, Some(3));
    assert!(matches!(&resp.payload, MessagePayload::Resp(RespPayload { status, result, error })
        if status == "success" && *result == Some(JsonValue::Bool(true)) && error.is_none()));

    let failed = Message::resp_error("sid".to_string(), 4, "boom".to_string());
    assert_eq!(failed.msg_type, "resp");
    assert!(matches!(&failed.payload, MessagePayload::Resp(RespPayload { status, result, error })
        if status == "error" && result.is_none() && error.as_deref() == Some("boom")));

    assert_eq!(Message::ping().msg_type, "ping");
    assert!(matches!(Message::ping().payload, MessagePayload::Ping(_)));
    assert_eq!(Message::pong().msg_type, "pong");
    assert!(matches!(Message::pong().payload, MessagePayload::Pong(_)));

    let err = Message::error("bad".to_string(), Some("E1".to_string()));
    assert_eq!(err.msg_type, "err");
    assert!(matches!(&err.payload, MessagePayload::Error(ErrPayload { error, code })
        if error == "bad" && code.as_deref() == Some("E1")));
}

#[test]
fn builders_change_one_thing() {
    let m = Message::stamped("ping", 9, Message::ping().payload);
    assert_eq!(m.ts, 9);
    let m = m.at(-4).with_nonce("n".to_string()).with_session("s".to_string(), 8);
    assert_eq!(m.ts, -4);
    assert_eq!(m.nonce.as_deref(), Some("n"));
    assert_eq!(m.session_id.as_deref(), Some("s"));
    assert_eq!(m.seq, Some(8));
    assert_eq!(m.msg_type, "ping");
}

#[test]
fn every_kind_of_message_survives_the_wire() {
    let nested = JsonValue::Object(vec![
        ("list".to_string(), JsonValue::Array(vec![JsonValue::Null, JsonValue::from_i64(-5)])),
        ("text".to_string(), JsonValue::Str("h\u{e9} \"q\"".to_string())),
    ]);
    let samples = vec![
        Message::hello("c1".to_string()).at(1),
        Message::challenge("ab".to_string()).at(i64::MIN),
        Message::auth("c".to_string(), "s".to_string(), "n".to_string(), "g".to_string()).at(i64::MAX),
        Message::auth_ok("sid".to_string()).at(0),
        Message::cmd(
            "sid".to_string(),
            u64::MAX,
            "n".to_string(),
            "ECHO".to_string(),
            nested,
            "sig".to_string(),
        )
        .at(5),
        Message::resp("sid".to_string(), 2, "success".to_string(), Some(JsonValue::Null)).at(6),
        Message::resp("sid".to_string(), 2, "success".to_string(), None).at(6),
        Message::resp_error("sid".to_string(), 3, "no".to_string()).at(7),
        Message::ping().at(8),
        Message::pong().at(9),
        Message::error("bad".to_string(), None).at(10),
        Message::error("bad".to_string(), Some("E".to_string())).at(11),
    ];
    for m in &samples {
        let back = through_the_wire(m);
        assert!(same_message(m, &back), "{:?} came back as {:?}", m, back);
    }
}

#[test]
fn the_tag_selects_the_shape() {
    // an `err` message is not taken for something else that it resembles
    let m = decode_payload(b"{\"type\":\"err\",\"ts\":1,\"error\":\"x\"}").unwrap();
    assert!(matches!(m.payload, MessagePayload::Error(_)));
    let m = decode_payload(b"{\"type\":\"pong\",\"ts\":1}").unwrap();
    assert!(matches!(m.payload, MessagePayload::Pong(_)));
    // members that the shape does not know are passed over
    let m = decode_payload(b"{\"type\":\"ping\",\"ts\":1,\"client_id\":\"c\"}").unwrap();
    assert!(matches!(m.payload, MessagePayload::Ping(_)));
    // absent arguments are the empty object
    let m = decode_payload(b"{\"type\":\"cmd\",\"ts\":1,\"cmd\":\"PING\",\"sig\":\"s\"}").unwrap();
    assert!(matches!(&m.payload, MessagePayload::Cmd(p) if p.args == JsonValue::Object(vec![])));
    // null stands for an absent optional field
    let m = decode_payload(b"{\"type\":\"ping\",\"ts\":1,\"nonce\":null,\"seq\":null}").unwrap();
    assert!(m.nonce.is_none() && m.seq.is_none());
}

#[test]
fn a_document_of_the_wrong_shape_is_malformed() {
    let cases: Vec<&[u8]> = vec![
        b"[]",
        b"1",
        b"{}",
        b"{\"type\":\"ping\"}",
        b"{\"ts\":1}",
        b"{\"type\":5,\"ts\":1}",
        b"{\"type\":\"ping\",\"ts\":\"1\"}",
        b"{\"type\":\"ping\",\"ts\":1.5}",
        b"{\"type\":\"ping\",\"ts\":9223372036854775808}",
        b"{\"type\":\"ping\",\"ts\":1,\"seq\":-1}",
        b"{\"type\":\"ping\",\"ts\":1,\"seq\":\"1\"}",
        b"{\"type\":\"ping\",\"ts\":1,\"nonce\":7}",
        b"{\"type\":\"ping\",\"ts\":1,\"session_id\":[]}",
        b"{\"type\":\"hello\",\"ts\":1}",
        b"{\"type\":\"hello\",\"ts\":1,\"client_id\":3}",
        b"{\"type\":\"challenge\",\"ts\":1}",
        b"{\"type\":\"auth\",\"ts\":1,\"client_id\":\"c\",\"server_nonce\":\"s\",\"client_nonce\":\"n\"}",
        b"{\"type\":\"auth_ok\",\"ts\":1}",
        b"{\"type\":\"cmd\",\"ts\":1,\"cmd\":\"PING\"}",
        b"{\"type\":\"cmd\",\"ts\":1,\"cmd\":\"PING\",\"sig\":\"s\",\"args\":[]}",
        b"{\"type\":\"cmd\",\"ts\":1,\"cmd\":\"PING\",\"sig\":\"s\",\"args\":null}",
        b"{\"type\":\"resp\",\"ts\":1}",
        b"{\"type\":\"resp\",\"ts\":1,\"status\":\"ok\",\"error\":1}",
        b"{\"type\":\"err\",\"ts\":1}",
        b"{\"type\":\"err\",\"ts\":1,\"error\":\"x\",\"code\":2}",
    ];
    for case in cases {
        assert_eq!(
            decode_payload(case).err(),
            Some(malformed()),
            "{}",
            String::from_utf8_lossy(case)
        );
    }
}

#[test]
fn an_unknown_tag_is_reported_with_the_tag() {
    assert_eq!(
        decode_payload(b"{\"type\":\"bogus\",\"ts\":1}").err(),
        Some(ProtocolError::InvalidMessageType("bogus".to_string()))
    );
    assert_eq!(
        decode_payload(b"{\"type\":\"\",\"ts\":1}").err(),
        Some(ProtocolError::InvalidMessageType("".to_string()))
    );
    assert_eq!(
        decode_payload(b"{\"type\":\"Hello\",\"ts\":1,\"client_id\":\"c\"}").err(),
        Some(ProtocolError::InvalidMessageType("Hello".to_string()))
    );
}

#[test]
fn json_documents_map_to_messages_and_back() {
    let m = Message::resp("sid".to_string(), 2, "success".to_string(), Some(JsonValue::from_u64(u64::MAX))).at(3);
    let doc = m.to_json();
    assert_eq!(doc.member("type"), Some(&JsonValue::Str("resp".to_string())));
    assert_eq!(doc.member("ts").and_then(|v| v.as_i64()), Some(3));
    assert_eq!(doc.member("seq").and_then(|v| v.as_u64()), Some(2));
    assert_eq!(doc.member("result").and_then(|v| v.as_u64()), Some(u64::MAX));
    assert_eq!(doc.member("result").and_then(|v| v.as_i64()), None);
    assert_eq!(doc.member("error"), None);
    assert_eq!(doc.member("nonce"), None);
    let back = Message::from_json(&doc).unwrap();
    assert!(same_message(&m, &back));
    assert_eq!(Message::from_json(&JsonValue::Null).err(), Some(malformed()));
}

#[test]
fn json_values_parse_print_and_copy() {
    let v = JsonValue::parse(b" {\"b\": [1, -2, 2.5, true, null], \"a\": {\"k\": \"v\"}} ").unwrap();
    assert_eq!(v.print().unwrap(), "{\"a\":{\"k\":\"v\"},\"b\":[1,-2,2.5,true,null]}");
    assert_eq!(v.duplicate(), v);
    assert_eq!(v.member("a").and_then(|a| a.member("k")).and_then(|k| k.as_text()), Some("v".to_string()));
    assert_eq!(v.member("missing"), None);
    assert_eq!(JsonValue::Null.member("a"), None);
    assert_eq!(JsonValue::parse(b"{"), None);
    assert_eq!(JsonValue::parse(b"1 2"), None);
    assert_eq!(JsonValue::from_text("x").as_text(), Some("x".to_string()));
    assert_eq!(JsonValue::from_i64(-7).as_i64(), Some(-7));
    assert_eq!(JsonValue::from_i64(-7).as_u64(), None);
    assert_eq!(JsonValue::from_u64(7).as_i64(), Some(7));
    assert_eq!(JsonValue::from_text("7").as_i64(), None);
    assert_eq!(JsonValue::Bool(true).as_text(), None);
    // of two members with one key the later one counts
    let twice = JsonValue::Object(vec![
        ("k".to_string(), JsonValue::from_i64(1)),
        ("k".to_string(), JsonValue::from_i64(2)),
    ]);
    assert_eq!(twice.member("k").and_then(|v| v.as_i64()), Some(2));
    assert_eq!(twice.print().unwrap(), "{\"k\":2}");
}

#[test]
fn tag_and_payload_must_agree() {
    assert!(Message::hello("c".to_string()).is_well_formed());
    assert!(Message::challenge("n".to_string()).is_well_formed());
    assert!(Message::auth_ok("s".to_string()).is_well_formed());
    assert!(Message::ping().is_well_formed());
    assert!(Message::pong().is_well_formed());
    assert!(Message::error("e".to_string(), None).is_well_formed());
    assert!(Message::resp_error("s".to_string(), 1, "e".to_string()).is_well_formed());
    assert!(!Message::stamped("hello", 1, Message::ping().payload).is_well_formed());
    assert!(!Message::stamped("pong", 1, Message::ping().payload).is_well_formed());
    assert!(!Message::new("", Message::ping().payload).is_well_formed());
    let with = |args: JsonValue| {
        Message::cmd("s".to_string(), 1, "n".to_string(), "PING".to_string(), args, "g".to_string())
    };
    assert!(with(JsonValue::Object(vec![])).is_well_formed());
    assert!(!with(JsonValue::Array(vec![])).is_well_formed());
    assert!(!with(JsonValue::Null).is_well_formed());
}
