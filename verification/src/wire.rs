//! Messages as JSON documents. The type tag is read first and selects the
//! shape that the rest of the document must have; absent optional fields are
//! left out of the document.

use crate::error::{ErrorView, ProtocolError};
use crate::json::{
    find, integer_model, json_error_text, json_from_slice, json_parse, json_text, json_to_string,
    lemma_object_model, lookup, members_model, model_as_i64, model_as_u64, put, JsonModel,
    JsonValue,
};
use crate::messages::{
    json_of, text_of, AuthOkPayload, AuthPayload, ChallengePayload, CmdPayload, ErrPayload,
    HelloPayload, Message, MessagePayload, MessageView, PayloadView, PingPayload, PongPayload,
    RespPayload,
};
use crate::text::str_equal;
use vstd::prelude::*;
use vstd::string::*;
use vstd::utf8::*;

verus! {

/// The members of a JSON object: keys with their values, in order.
pub type Members = Seq<(Seq<char>, JsonModel)>;

/// `ms` followed by a string member, if there is one.
pub open spec fn put_text(ms: Members, key: Seq<char>, o: Option<Seq<char>>) -> Members {
    match o {
        Some(s) => ms.push((key, JsonModel::Str(s))),
        None => ms,
    }
}

/// `ms` followed by an unsigned integer member, if there is one.
pub open spec fn put_number(ms: Members, key: Seq<char>, o: Option<u64>) -> Members {
    match o {
        Some(u) => ms.push((key, JsonModel::Number(integer_model(u as int)))),
        None => ms,
    }
}

/// `ms` followed by a member of any kind, if there is one.
pub open spec fn put_value(ms: Members, key: Seq<char>, o: Option<JsonModel>) -> Members {
    match o {
        Some(v) => ms.push((key, v)),
        None => ms,
    }
}

/// The members that every message has: tag and timestamp, then nonce,
/// session id and sequence number where present.
pub open spec fn envelope_members(m: MessageView) -> Members {
    let base = Seq::<(Seq<char>, JsonModel)>::empty().push(
        ("type"@, JsonModel::Str(m.msg_type)),
    ).push(("ts"@, JsonModel::Number(integer_model(m.ts as int))));
    put_number(
        put_text(put_text(base, "nonce"@, m.nonce), "session_id"@, m.session_id),
        "seq"@,
        m.seq,
    )
}

/// `ms` followed by the members of a payload.
pub open spec fn with_payload(ms: Members, p: PayloadView) -> Members {
    match p {
        PayloadView::Hello { client_id } => ms.push(("client_id"@, JsonModel::Str(client_id))),
        PayloadView::Challenge { server_nonce } => ms.push(
            ("server_nonce"@, JsonModel::Str(server_nonce)),
        ),
        PayloadView::Auth { client_id, server_nonce, client_nonce, sig } => ms.push(
            ("client_id"@, JsonModel::Str(client_id)),
        ).push(("server_nonce"@, JsonModel::Str(server_nonce))).push(
            ("client_nonce"@, JsonModel::Str(client_nonce)),
        ).push(("sig"@, JsonModel::Str(sig))),
        PayloadView::AuthOk { message } => ms.push(("message"@, JsonModel::Str(message))),
        PayloadView::Cmd { cmd, args, sig } => ms.push(("cmd"@, JsonModel::Str(cmd))).push(
            ("args"@, args),
        ).push(("sig"@, JsonModel::Str(sig))),
        PayloadView::Resp { status, result, error } => put_text(
            put_value(ms.push(("status"@, JsonModel::Str(status))), "result"@, result),
            "error"@,
            error,
        ),
        PayloadView::Ping => ms,
        PayloadView::Pong => ms,
        PayloadView::Error { error, code } => put_text(
            ms.push(("error"@, JsonModel::Str(error))),
            "code"@,
            code,
        ),
    }
}

/// The JSON document of a message.
pub open spec fn message_json(m: MessageView) -> JsonModel {
    JsonModel::Object(with_payload(envelope_members(m), m.payload))
}

/// The reason given when a document has not the shape of a message.
pub open spec fn malformed() -> ErrorView {
    ErrorView::Json("document is not a well-formed message"@)
}

/// A member that must be a string.
pub open spec fn text_member(ms: Members, key: Seq<char>) -> Option<Seq<char>> {
    match lookup(ms, key) {
        Some(JsonModel::Str(s)) => Some(s),
        _ => None,
    }
}

/// A member that may be absent or null and is a string otherwise; the outer
/// `None` stands for a member of another kind.
pub open spec fn optional_text_member(ms: Members, key: Seq<char>) -> Option<Option<Seq<char>>> {
    match lookup(ms, key) {
        None => Some(None),
        Some(JsonModel::Null) => Some(None),
        Some(JsonModel::Str(s)) => Some(Some(s)),
        _ => None,
    }
}

/// A member that must be an integer in the range of `i64`.
pub open spec fn i64_member(ms: Members, key: Seq<char>) -> Option<i64> {
    match lookup(ms, key) {
        Some(JsonModel::Number(n)) => model_as_i64(n),
        _ => None,
    }
}

/// A member that may be absent or null and is an integer in the range of
/// `u64` otherwise; the outer `None` stands for anything else.
pub open spec fn optional_u64_member(ms: Members, key: Seq<char>) -> Option<Option<u64>> {
    match lookup(ms, key) {
        None => Some(None),
        Some(JsonModel::Null) => Some(None),
        Some(JsonModel::Number(n)) => match model_as_u64(n) {
            Some(u) => Some(Some(u)),
            None => None,
        },
        _ => None,
    }
}

/// The arguments of a command: an object, the empty object where the member
/// is absent; `None` for a member of another kind.
pub open spec fn args_member(ms: Members) -> Option<JsonModel> {
    match lookup(ms, "args"@) {
        None => Some(JsonModel::Object(Seq::empty())),
        Some(v) => if v is Object {
            Some(v)
        } else {
            None
        },
    }
}

/// The payload that the tag selects, read from the members of a document.
pub open spec fn payload_of(tag: Seq<char>, ms: Members) -> Result<PayloadView, ErrorView> {
    if tag == "hello"@ {
        match text_member(ms, "client_id"@) {
            Some(client_id) => Ok(PayloadView::Hello { client_id }),
            None => Err(malformed()),
        }
    } else if tag == "challenge"@ {
        match text_member(ms, "server_nonce"@) {
            Some(server_nonce) => Ok(PayloadView::Challenge { server_nonce }),
            None => Err(malformed()),
        }
    } else if tag == "auth"@ {
        match (
            text_member(ms, "client_id"@),
            text_member(ms, "server_nonce"@),
            text_member(ms, "client_nonce"@),
            text_member(ms, "sig"@),
        ) {
            (Some(client_id), Some(server_nonce), Some(client_nonce), Some(sig)) => Ok(
                PayloadView::Auth { client_id, server_nonce, client_nonce, sig },
            ),
            _ => Err(malformed()),
        }
    } else if tag == "auth_ok"@ {
        match text_member(ms, "message"@) {
            Some(message) => Ok(PayloadView::AuthOk { message }),
            None => Err(malformed()),
        }
    } else if tag == "cmd"@ {
        match (text_member(ms, "cmd"@), args_member(ms), text_member(ms, "sig"@)) {
            (Some(cmd), Some(args), Some(sig)) => Ok(PayloadView::Cmd { cmd, args, sig }),
            _ => Err(malformed()),
        }
    } else if tag == "resp"@ {
        match (text_member(ms, "status"@), optional_text_member(ms, "error"@)) {
            (Some(status), Some(error)) => Ok(
                PayloadView::Resp { status, result: lookup(ms, "result"@), error },
            ),
            _ => Err(malformed()),
        }
    } else if tag == "ping"@ {
        Ok(PayloadView::Ping)
    } else if tag == "pong"@ {
        Ok(PayloadView::Pong)
    } else if tag == "err"@ {
        match (text_member(ms, "error"@), optional_text_member(ms, "code"@)) {
            (Some(error), Some(code)) => Ok(PayloadView::Error { error, code }),
            _ => Err(malformed()),
        }
    } else {
        Err(ErrorView::InvalidMessageType(tag))
    }
}

/// The message that a JSON document holds: the envelope is read first, then
/// the payload that the tag selects. A document that is no object or lacks a
/// required member of the right kind is malformed; a tag that names no
/// message type is reported with the tag.
pub open spec fn message_of_json(v: JsonModel) -> Result<MessageView, ErrorView> {
    match v {
        JsonModel::Object(ms) => match (
            text_member(ms, "type"@),
            i64_member(ms, "ts"@),
            optional_text_member(ms, "nonce"@),
            optional_text_member(ms, "session_id"@),
            optional_u64_member(ms, "seq"@),
        ) {
            (Some(msg_type), Some(ts), Some(nonce), Some(session_id), Some(seq)) => match payload_of(
                msg_type,
                ms,
            ) {
                Ok(payload) => Ok(MessageView { msg_type, ts, nonce, session_id, seq, payload }),
                Err(e) => Err(e),
            },
            _ => Err(malformed()),
        },
        _ => Err(malformed()),
    }
}

/// The content of the outcome of reading a message.
pub open spec fn outcome_view(r: Result<Message, ProtocolError>) -> Result<MessageView, ErrorView> {
    match r {
        Ok(m) => Ok(m@),
        Err(e) => Err(e@),
    }
}

/// Looking a key up after a member was appended.
pub proof fn lemma_lookup_push()
    ensures
        forall|ms: Members, k: Seq<char>, v: JsonModel, key: Seq<char>| #[trigger]
            lookup(ms.push((k, v)), key) == (if k == key {
                Some(v)
            } else {
                lookup(ms, key)
            }),
{
    assert forall|ms: Members, k: Seq<char>, v: JsonModel, key: Seq<char>| #[trigger]
        lookup(ms.push((k, v)), key) == (if k == key {
            Some(v)
        } else {
            lookup(ms, key)
        }) by {
        assert(ms.push((k, v)).drop_last() =~= ms);
    }
}

/// What the key and tag literals of the wire format hold.
proof fn reveal_wire_literals()
    ensures
        "type"@ == seq!['t', 'y', 'p', 'e'],
        "ts"@ == seq!['t', 's'],
        "nonce"@ == seq!['n', 'o', 'n', 'c', 'e'],
        "session_id"@ == seq!['s', 'e', 's', 's', 'i', 'o', 'n', '_', 'i', 'd'],
        "seq"@ == seq!['s', 'e', 'q'],
        "client_id"@ == seq!['c', 'l', 'i', 'e', 'n', 't', '_', 'i', 'd'],
        "server_nonce"@ == seq!['s', 'e', 'r', 'v', 'e', 'r', '_', 'n', 'o', 'n', 'c', 'e'],
        "client_nonce"@ == seq!['c', 'l', 'i', 'e', 'n', 't', '_', 'n', 'o', 'n', 'c', 'e'],
        "sig"@ == seq!['s', 'i', 'g'],
        "message"@ == seq!['m', 'e', 's', 's', 'a', 'g', 'e'],
        "cmd"@ == seq!['c', 'm', 'd'],
        "args"@ == seq!['a', 'r', 'g', 's'],
        "status"@ == seq!['s', 't', 'a', 't', 'u', 's'],
        "result"@ == seq!['r', 'e', 's', 'u', 'l', 't'],
        "error"@ == seq!['e', 'r', 'r', 'o', 'r'],
        "code"@ == seq!['c', 'o', 'd', 'e'],
        "hello"@ == seq!['h', 'e', 'l', 'l', 'o'],
        "challenge"@ == seq!['c', 'h', 'a', 'l', 'l', 'e', 'n', 'g', 'e'],
        "auth"@ == seq!['a', 'u', 't', 'h'],
        "auth_ok"@ == seq!['a', 'u', 't', 'h', '_', 'o', 'k'],
        "resp"@ == seq!['r', 'e', 's', 'p'],
        "ping"@ == seq!['p', 'i', 'n', 'g'],
        "pong"@ == seq!['p', 'o', 'n', 'g'],
        "err"@ == seq!['e', 'r', 'r'],
{
    reveal_strlit("type");
    reveal_strlit("ts");
    reveal_strlit("nonce");
    reveal_strlit("session_id");
    reveal_strlit("seq");
    reveal_strlit("client_id");
    reveal_strlit("server_nonce");
    reveal_strlit("client_nonce");
    reveal_strlit("sig");
    reveal_strlit("message");
    reveal_strlit("cmd");
    reveal_strlit("args");
    reveal_strlit("status");
    reveal_strlit("result");
    reveal_strlit("error");
    reveal_strlit("code");
    reveal_strlit("hello");
    reveal_strlit("challenge");
    reveal_strlit("auth");
    reveal_strlit("auth_ok");
    reveal_strlit("resp");
    reveal_strlit("ping");
    reveal_strlit("pong");
    reveal_strlit("err");
    assert("type"@ =~= seq!['t', 'y', 'p', 'e']);
    assert("ts"@ =~= seq!['t', 's']);
    assert("nonce"@ =~= seq!['n', 'o', 'n', 'c', 'e']);
    assert("session_id"@ =~= seq!['s', 'e', 's', 's', 'i', 'o', 'n', '_', 'i', 'd']);
    assert("seq"@ =~= seq!['s', 'e', 'q']);
    assert("client_id"@ =~= seq!['c', 'l', 'i', 'e', 'n', 't', '_', 'i', 'd']);
    assert("server_nonce"@ =~= seq!['s', 'e', 'r', 'v', 'e', 'r', '_', 'n', 'o', 'n', 'c', 'e']);
    assert("client_nonce"@ =~= seq!['c', 'l', 'i', 'e', 'n', 't', '_', 'n', 'o', 'n', 'c', 'e']);
    assert("sig"@ =~= seq!['s', 'i', 'g']);
    assert("message"@ =~= seq!['m', 'e', 's', 's', 'a', 'g', 'e']);
    assert("cmd"@ =~= seq!['c', 'm', 'd']);
    assert("args"@ =~= seq!['a', 'r', 'g', 's']);
    assert("status"@ =~= seq!['s', 't', 'a', 't', 'u', 's']);
    assert("result"@ =~= seq!['r', 'e', 's', 'u', 'l', 't']);
    assert("error"@ =~= seq!['e', 'r', 'r', 'o', 'r']);
    assert("code"@ =~= seq!['c', 'o', 'd', 'e']);
    assert("hello"@ =~= seq!['h', 'e', 'l', 'l', 'o']);
    assert("challenge"@ =~= seq!['c', 'h', 'a', 'l', 'l', 'e', 'n', 'g', 'e']);
    assert("auth"@ =~= seq!['a', 'u', 't', 'h']);
    assert("auth_ok"@ =~= seq!['a', 'u', 't', 'h', '_', 'o', 'k']);
    assert("resp"@ =~= seq!['r', 'e', 's', 'p']);
    assert("ping"@ =~= seq!['p', 'i', 'n', 'g']);
    assert("pong"@ =~= seq!['p', 'o', 'n', 'g']);
    assert("err"@ =~= seq!['e', 'r', 'r']);
}

/// Reading back the document of a well-formed message gives the message:
/// every field of envelope and payload survives.
pub proof fn lemma_message_roundtrip(m: MessageView)
    requires
        m.well_formed(),
    ensures
        message_of_json(message_json(m)) == Ok::<MessageView, ErrorView>(m),
{
    reveal_wire_literals();
    lemma_lookup_push();
    let env = envelope_members(m);
    let ms = with_payload(env, m.payload);
    assert(text_member(ms, "type"@) == Some(m.msg_type));
    assert(i64_member(ms, "ts"@) == Some(m.ts));
    assert(optional_text_member(ms, "nonce"@) == Some(m.nonce));
    assert(optional_text_member(ms, "session_id"@) == Some(m.session_id));
    assert(optional_u64_member(ms, "seq"@) == Some(m.seq));
    match m.payload {
        PayloadView::Hello { client_id } => {
            assert(text_member(ms, "client_id"@) == Some(client_id));
            assert(payload_of(m.msg_type, ms) == Ok::<PayloadView, ErrorView>(m.payload));
        },
        PayloadView::Challenge { server_nonce } => {
            assert(text_member(ms, "server_nonce"@) == Some(server_nonce));
            assert(payload_of(m.msg_type, ms) == Ok::<PayloadView, ErrorView>(m.payload));
        },
        PayloadView::Auth { client_id, server_nonce, client_nonce, sig } => {
            assert(text_member(ms, "client_id"@) == Some(client_id));
            assert(text_member(ms, "server_nonce"@) == Some(server_nonce));
            assert(text_member(ms, "client_nonce"@) == Some(client_nonce));
            assert(text_member(ms, "sig"@) == Some(sig));
            assert(payload_of(m.msg_type, ms) == Ok::<PayloadView, ErrorView>(m.payload));
        },
        PayloadView::AuthOk { message } => {
            assert(text_member(ms, "message"@) == Some(message));
            assert("auth_ok"@.len() == 7);
            assert("auth"@.len() == 4);
            assert("hello"@.len() == 5);
            assert("challenge"@.len() == 9);
            assert(m.msg_type == "auth_ok"@);
            assert(payload_of(m.msg_type, ms) == Ok::<PayloadView, ErrorView>(m.payload));
        },
        PayloadView::Cmd { cmd, args, sig } => {
            assert(text_member(ms, "cmd"@) == Some(cmd));
            assert(lookup(ms, "args"@) == Some(args));
            assert(args_member(ms) == Some(args));
            assert(text_member(ms, "sig"@) == Some(sig));
            assert(payload_of(m.msg_type, ms) == Ok::<PayloadView, ErrorView>(m.payload));
        },
        PayloadView::Resp { status, result, error } => {
            assert(lookup(env, "status"@) is None);
            assert(lookup(env, "result"@) is None);
            assert(lookup(env, "error"@) is None);
            assert(text_member(ms, "status"@) == Some(status));
            assert(lookup(ms, "result"@) == result);
            assert(optional_text_member(ms, "error"@) == Some(error));
            assert(payload_of(m.msg_type, ms) == Ok::<PayloadView, ErrorView>(m.payload));
        },
        PayloadView::Ping => {
            assert("ping"@[1] != "pong"@[1]);
            assert(payload_of(m.msg_type, ms) == Ok::<PayloadView, ErrorView>(m.payload));
        },
        PayloadView::Pong => {
            assert("ping"@[1] != "pong"@[1]);
            assert(payload_of(m.msg_type, ms) == Ok::<PayloadView, ErrorView>(m.payload));
        },
        PayloadView::Error { error, code } => {
            assert(lookup(env, "error"@) is None);
            assert(lookup(env, "code"@) is None);
            assert(text_member(ms, "error"@) == Some(error));
            assert(optional_text_member(ms, "code"@) == Some(code));
            assert(payload_of(m.msg_type, ms) == Ok::<PayloadView, ErrorView>(m.payload));
        },
    }
    assert(payload_of(m.msg_type, ms) == Ok::<PayloadView, ErrorView>(m.payload));
}

fn put_optional_text(members: &mut Vec<(String, JsonValue)>, key: &str, value: &Option<String>)
    ensures
        members_model(final(members)@) == put_text(
            members_model(old(members)@),
            key@,
            text_of(*value),
        ),
{
    match value {
        Some(s) => put(members, key, JsonValue::Str(s.clone())),
        None => {},
    }
}

fn malformed_error() -> (r: ProtocolError)
    ensures
        r@ == malformed(),
{
    ProtocolError::Json(String::from_str("document is not a well-formed message"))
}

fn read_text(members: &Vec<(String, JsonValue)>, key: &str) -> (r: Option<String>)
    ensures
        text_of(r) == text_member(members_model(members@), key@),
{
    match find(members, key) {
        Some(v) => v.as_text(),
        None => None,
    }
}

fn read_optional_text(members: &Vec<(String, JsonValue)>, key: &str) -> (r: Option<Option<String>>)
    ensures
        match r {
            Some(o) => optional_text_member(members_model(members@), key@) == Some(text_of(o)),
            None => optional_text_member(members_model(members@), key@) is None,
        },
{
    match find(members, key) {
        None => Some(None),
        Some(v) => match v {
            JsonValue::Null => Some(None),
            JsonValue::Str(s) => Some(Some(s.clone())),
            _ => None,
        },
    }
}

fn read_i64(members: &Vec<(String, JsonValue)>, key: &str) -> (r: Option<i64>)
    ensures
        r == i64_member(members_model(members@), key@),
{
    match find(members, key) {
        Some(v) => v.as_i64(),
        None => None,
    }
}

fn read_optional_u64(members: &Vec<(String, JsonValue)>, key: &str) -> (r: Option<Option<u64>>)
    ensures
        r == optional_u64_member(members_model(members@), key@),
{
    match find(members, key) {
        None => Some(None),
        Some(v) => match v {
            JsonValue::Null => Some(None),
            JsonValue::Number(_) => match v.as_u64() {
                Some(u) => Some(Some(u)),
                None => None,
            },
            _ => None,
        },
    }
}

fn read_args(members: &Vec<(String, JsonValue)>) -> (r: Option<JsonValue>)
    ensures
        json_of(r) == args_member(members_model(members@)),
{
    match find(members, "args") {
        None => {
            let empty: Vec<(String, JsonValue)> = Vec::new();
            proof {
                lemma_object_model(empty);
                assert(members_model(empty@) =~= Seq::empty());
            }
            Some(JsonValue::Object(empty))
        },
        Some(v) => match v {
            JsonValue::Object(_) => Some(v.duplicate()),
            _ => None,
        },
    }
}

fn read_value(members: &Vec<(String, JsonValue)>, key: &str) -> (r: Option<JsonValue>)
    ensures
        json_of(r) == lookup(members_model(members@), key@),
{
    match find(members, key) {
        Some(v) => Some(v.duplicate()),
        None => None,
    }
}

fn read_payload(tag: &str, members: &Vec<(String, JsonValue)>) -> (r: Result<
    MessagePayload,
    ProtocolError,
>)
    ensures
        match payload_of(tag@, members_model(members@)) {
            Ok(p) => r matches Ok(x) && x@ == p,
            Err(e) => r matches Err(x) && x@ == e,
        },
{
    if str_equal(tag, "hello") {
        match read_text(members, "client_id") {
            Some(client_id) => Ok(MessagePayload::Hello(HelloPayload { client_id })),
            None => Err(malformed_error()),
        }
    } else if str_equal(tag, "challenge") {
        match read_text(members, "server_nonce") {
            Some(server_nonce) => Ok(MessagePayload::Challenge(ChallengePayload { server_nonce })),
            None => Err(malformed_error()),
        }
    } else if str_equal(tag, "auth") {
        let client_id = read_text(members, "client_id");
        let server_nonce = read_text(members, "server_nonce");
        let client_nonce = read_text(members, "client_nonce");
        let sig = read_text(members, "sig");
        match (client_id, server_nonce, client_nonce, sig) {
            (Some(client_id), Some(server_nonce), Some(client_nonce), Some(sig)) => Ok(
                MessagePayload::Auth(AuthPayload { client_id, server_nonce, client_nonce, sig }),
            ),
            _ => Err(malformed_error()),
        }
    } else if str_equal(tag, "auth_ok") {
        match read_text(members, "message") {
            Some(message) => Ok(MessagePayload::AuthOk(AuthOkPayload { message })),
            None => Err(malformed_error()),
        }
    } else if str_equal(tag, "cmd") {
        let cmd = read_text(members, "cmd");
        let args = read_args(members);
        let sig = read_text(members, "sig");
        match (cmd, args, sig) {
            (Some(cmd), Some(args), Some(sig)) => Ok(
                MessagePayload::Cmd(CmdPayload { cmd, args, sig }),
            ),
            _ => Err(malformed_error()),
        }
    } else if str_equal(tag, "resp") {
        let status = read_text(members, "status");
        let error = read_optional_text(members, "error");
        match (status, error) {
            (Some(status), Some(error)) => {
                let result = read_value(members, "result");
                Ok(MessagePayload::Resp(RespPayload { status, result, error }))
            },
            _ => Err(malformed_error()),
        }
    } else if str_equal(tag, "ping") {
        Ok(MessagePayload::Ping(PingPayload {  }))
    } else if str_equal(tag, "pong") {
        Ok(MessagePayload::Pong(PongPayload {  }))
    } else if str_equal(tag, "err") {
        let error = read_text(members, "error");
        let code = read_optional_text(members, "code");
        match (error, code) {
            (Some(error), Some(code)) => Ok(MessagePayload::Error(ErrPayload { error, code })),
            _ => Err(malformed_error()),
        }
    } else {
        Err(ProtocolError::InvalidMessageType(String::from_str(tag)))
    }
}

impl Message {
    /// The JSON document of this message.
    pub fn to_json(&self) -> (r: JsonValue)
        ensures
            r.model() == message_json(self@),
    {
        let ghost view = self@;
        let mut members: Vec<(String, JsonValue)> = Vec::new();
        assert(members_model(members@) =~= Seq::empty());
        put(&mut members, "type", JsonValue::Str(self.msg_type.clone()));
        put(&mut members, "ts", JsonValue::from_i64(self.ts));
        put_optional_text(&mut members, "nonce", &self.nonce);
        put_optional_text(&mut members, "session_id", &self.session_id);
        match self.seq {
            Some(u) => put(&mut members, "seq", JsonValue::from_u64(u)),
            None => {},
        }
        assert(members_model(members@) == envelope_members(view));
        match &self.payload {
            MessagePayload::Hello(p) => {
                put(&mut members, "client_id", JsonValue::Str(p.client_id.clone()));
            },
            MessagePayload::Challenge(p) => {
                put(&mut members, "server_nonce", JsonValue::Str(p.server_nonce.clone()));
            },
            MessagePayload::Auth(p) => {
                put(&mut members, "client_id", JsonValue::Str(p.client_id.clone()));
                put(&mut members, "server_nonce", JsonValue::Str(p.server_nonce.clone()));
                put(&mut members, "client_nonce", JsonValue::Str(p.client_nonce.clone()));
                put(&mut members, "sig", JsonValue::Str(p.sig.clone()));
            },
            MessagePayload::AuthOk(p) => {
                put(&mut members, "message", JsonValue::Str(p.message.clone()));
            },
            MessagePayload::Cmd(p) => {
                put(&mut members, "cmd", JsonValue::Str(p.cmd.clone()));
                put(&mut members, "args", p.args.duplicate());
                put(&mut members, "sig", JsonValue::Str(p.sig.clone()));
            },
            MessagePayload::Resp(p) => {
                put(&mut members, "status", JsonValue::Str(p.status.clone()));
                match &p.result {
                    Some(v) => put(&mut members, "result", v.duplicate()),
                    None => {},
                }
                put_optional_text(&mut members, "error", &p.error);
            },
            MessagePayload::Ping(_) => {},
            MessagePayload::Pong(_) => {},
            MessagePayload::Error(p) => {
                put(&mut members, "error", JsonValue::Str(p.error.clone()));
                put_optional_text(&mut members, "code", &p.code);
            },
        }
        assert(members_model(members@) == with_payload(envelope_members(view), view.payload));
        proof {
            lemma_object_model(members);
        }
        JsonValue::Object(members)
    }

    /// Reads a message from a JSON document.
    pub fn from_json(v: &JsonValue) -> (r: Result<Message, ProtocolError>)
        ensures
            outcome_view(r) == message_of_json(v.model()),
    {
        match v {
            JsonValue::Object(members) => {
                proof {
                    lemma_object_model(*members);
                }
                let msg_type = read_text(members, "type");
                let ts = read_i64(members, "ts");
                let nonce = read_optional_text(members, "nonce");
                let session_id = read_optional_text(members, "session_id");
                let seq = read_optional_u64(members, "seq");
                match (msg_type, ts, nonce, session_id, seq) {
                    (Some(msg_type), Some(ts), Some(nonce), Some(session_id), Some(seq)) => {
                        match read_payload(msg_type.as_str(), members) {
                            Ok(payload) => Ok(
                                Message { msg_type, ts, nonce, session_id, seq, payload },
                            ),
                            Err(e) => Err(e),
                        }
                    },
                    _ => Err(malformed_error()),
                }
            },
            _ => Err(malformed_error()),
        }
    }
}

/// The outcome of reading a message from the payload of a frame: a parse
/// failure is a serialization error, whatever its text; a document is read
/// as [`message_of_json`] says.
pub open spec fn payload_outcome(
    parsed: Option<JsonModel>,
    r: Result<MessageView, ErrorView>,
) -> bool {
    match parsed {
        None => r matches Err(ErrorView::Json(_)),
        Some(doc) => r == message_of_json(doc),
    }
}

/// The outcome of printing a message as the payload of a frame: the UTF-8
/// bytes of the text, or a serialization error where there is no text.
pub open spec fn text_outcome(text: Option<Seq<char>>, r: Result<Vec<u8>, ProtocolError>) -> bool {
    match text {
        None => r matches Err(ProtocolError::Json(_)),
        Some(t) => r matches Ok(bytes) && bytes@ == encode_utf8(t),
    }
}

/// Reads a message from the payload of a frame.
pub fn decode_payload(payload: &[u8]) -> (r: Result<Message, ProtocolError>)
    ensures
        payload_outcome(json_parse(payload@), outcome_view(r)),
{
    match json_from_slice(payload) {
        Ok(doc) => Message::from_json(&doc),
        Err(e) => Err(ProtocolError::Json(json_error_text(&e))),
    }
}

/// Prints a message as the payload of a frame.
pub fn encode_payload(message: &Message) -> (r: Result<Vec<u8>, ProtocolError>)
    ensures
        text_outcome(json_text(message_json(message@)), r),
{
    let doc = message.to_json();
    match json_to_string(&doc) {
        Ok(text) => Ok(text.as_str().as_bytes_vec()),
        Err(e) => Err(ProtocolError::Json(json_error_text(&e))),
    }
}

} // verus!
