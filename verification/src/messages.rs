//! The message model: an envelope with a type tag and the payload that the
//! tag selects.

use crate::clock::unix_now;
use crate::json::{JsonModel, JsonValue};
use crate::text::str_equal;
use vstd::prelude::*;
use vstd::string::*;

verus! {

/// The client announces itself.
#[derive(Debug, Clone)]
pub struct HelloPayload {
    pub client_id: String,
}

/// The server answers with a nonce of its own.
#[derive(Debug, Clone)]
pub struct ChallengePayload {
    pub server_nonce: String,
}

/// The client proves that it holds the pre-shared key.
#[derive(Debug, Clone)]
pub struct AuthPayload {
    pub client_id: String,
    pub server_nonce: String,
    pub client_nonce: String,
    /// HMAC-SHA256 in hexadecimal.
    pub sig: String,
}

/// The server accepts the handshake; the session id travels in the
/// envelope.
#[derive(Debug, Clone)]
pub struct AuthOkPayload {
    pub message: String,
}

/// A signed command.
#[derive(Debug, Clone)]
pub struct CmdPayload {
    pub cmd: String,
    /// The arguments: a JSON object.
    pub args: JsonValue,
    /// HMAC-SHA256 in hexadecimal.
    pub sig: String,
}

/// The answer to a command.
#[derive(Debug, Clone)]
pub struct RespPayload {
    pub status: String,
    pub result: Option<JsonValue>,
    pub error: Option<String>,
}

/// Heartbeat request.
#[derive(Debug, Clone)]
pub struct PingPayload {}

/// Heartbeat answer.
#[derive(Debug, Clone)]
pub struct PongPayload {}

/// An error reported outside any command.
#[derive(Debug, Clone)]
pub struct ErrPayload {
    pub error: String,
    pub code: Option<String>,
}

/// The payload variants.
#[derive(Debug, Clone)]
pub enum MessagePayload {
    Hello(HelloPayload),
    Challenge(ChallengePayload),
    Auth(AuthPayload),
    AuthOk(AuthOkPayload),
    Cmd(CmdPayload),
    Resp(RespPayload),
    Ping(PingPayload),
    Pong(PongPayload),
    Error(ErrPayload),
}

/// One message: the fields that every message has and its payload.
#[derive(Debug, Clone)]
pub struct Message {
    /// The type tag; it selects the payload variant.
    pub msg_type: String,
    /// Seconds since the Unix epoch.
    pub ts: i64,
    pub nonce: Option<String>,
    pub session_id: Option<String>,
    pub seq: Option<u64>,
    pub payload: MessagePayload,
}

/// The mathematical content of a [`MessagePayload`].
#[allow(inconsistent_fields)]
pub enum PayloadView {
    Hello { client_id: Seq<char> },
    Challenge { server_nonce: Seq<char> },
    Auth { client_id: Seq<char>, server_nonce: Seq<char>, client_nonce: Seq<char>, sig: Seq<char> },
    AuthOk { message: Seq<char> },
    Cmd { cmd: Seq<char>, args: JsonModel, sig: Seq<char> },
    Resp { status: Seq<char>, result: Option<JsonModel>, error: Option<Seq<char>> },
    Ping,
    Pong,
    Error { error: Seq<char>, code: Option<Seq<char>> },
}

/// The mathematical content of a [`Message`].
pub struct MessageView {
    pub msg_type: Seq<char>,
    pub ts: i64,
    pub nonce: Option<Seq<char>>,
    pub session_id: Option<Seq<char>>,
    pub seq: Option<u64>,
    pub payload: PayloadView,
}

/// The characters of an optional string.
pub open spec fn text_of(o: Option<String>) -> Option<Seq<char>> {
    match o {
        Some(s) => Some(s@),
        None => None,
    }
}

/// The content of an optional JSON value.
pub open spec fn json_of(o: Option<JsonValue>) -> Option<JsonModel> {
    match o {
        Some(v) => Some(v.model()),
        None => None,
    }
}

impl View for MessagePayload {
    type V = PayloadView;

    open spec fn view(&self) -> PayloadView {
        match self {
            MessagePayload::Hello(p) => PayloadView::Hello { client_id: p.client_id@ },
            MessagePayload::Challenge(p) => PayloadView::Challenge { server_nonce: p.server_nonce@ },
            MessagePayload::Auth(p) => PayloadView::Auth {
                client_id: p.client_id@,
                server_nonce: p.server_nonce@,
                client_nonce: p.client_nonce@,
                sig: p.sig@,
            },
            MessagePayload::AuthOk(p) => PayloadView::AuthOk { message: p.message@ },
            MessagePayload::Cmd(p) => PayloadView::Cmd {
                cmd: p.cmd@,
                args: p.args.model(),
                sig: p.sig@,
            },
            MessagePayload::Resp(p) => PayloadView::Resp {
                status: p.status@,
                result: json_of(p.result),
                error: text_of(p.error),
            },
            MessagePayload::Ping(_) => PayloadView::Ping,
            MessagePayload::Pong(_) => PayloadView::Pong,
            MessagePayload::Error(p) => PayloadView::Error { error: p.error@, code: text_of(p.code) },
        }
    }
}

impl View for Message {
    type V = MessageView;

    open spec fn view(&self) -> MessageView {
        MessageView {
            msg_type: self.msg_type@,
            ts: self.ts,
            nonce: text_of(self.nonce),
            session_id: text_of(self.session_id),
            seq: self.seq,
            payload: self.payload@,
        }
    }
}

/// The type tag that goes with a payload variant.
pub open spec fn payload_tag(p: PayloadView) -> Seq<char> {
    match p {
        PayloadView::Hello { .. } => "hello"@,
        PayloadView::Challenge { .. } => "challenge"@,
        PayloadView::Auth { .. } => "auth"@,
        PayloadView::AuthOk { .. } => "auth_ok"@,
        PayloadView::Cmd { .. } => "cmd"@,
        PayloadView::Resp { .. } => "resp"@,
        PayloadView::Ping => "ping"@,
        PayloadView::Pong => "pong"@,
        PayloadView::Error { .. } => "err"@,
    }
}

/// A message without nonce, session or sequence number.
pub open spec fn bare_message(msg_type: Seq<char>, ts: i64, payload: PayloadView) -> MessageView {
    MessageView { msg_type, ts, nonce: None, session_id: None, seq: None, payload }
}

/// A message bound to a session and a sequence number.
pub open spec fn session_message(
    msg_type: Seq<char>,
    ts: i64,
    session_id: Seq<char>,
    seq: u64,
    payload: PayloadView,
) -> MessageView {
    MessageView {
        msg_type,
        ts,
        nonce: None,
        session_id: Some(session_id),
        seq: Some(seq),
        payload,
    }
}

/// The text that an accepted handshake carries.
pub open spec fn auth_ok_text() -> Seq<char> {
    "Authentication successful"@
}

impl MessageView {
    /// The type tag agrees with the payload, and the arguments of a command
    /// are a JSON object.
    pub open spec fn well_formed(self) -> bool {
        &&& self.msg_type == payload_tag(self.payload)
        &&& self.payload matches PayloadView::Cmd { args, .. } ==> args is Object
    }
}

impl Message {
    /// Whether the type tag agrees with the payload and the arguments of a
    /// command are a JSON object.
    pub fn is_well_formed(&self) -> (r: bool)
        ensures
            r == self@.well_formed(),
    {
        let tag = self.msg_type.as_str();
        match &self.payload {
            MessagePayload::Hello(_) => str_equal(tag, "hello"),
            MessagePayload::Challenge(_) => str_equal(tag, "challenge"),
            MessagePayload::Auth(_) => str_equal(tag, "auth"),
            MessagePayload::AuthOk(_) => str_equal(tag, "auth_ok"),
            MessagePayload::Cmd(p) => {
                let is_object = match &p.args {
                    JsonValue::Object(_) => true,
                    _ => false,
                };
                str_equal(tag, "cmd") && is_object
            },
            MessagePayload::Resp(_) => str_equal(tag, "resp"),
            MessagePayload::Ping(_) => str_equal(tag, "ping"),
            MessagePayload::Pong(_) => str_equal(tag, "pong"),
            MessagePayload::Error(_) => str_equal(tag, "err"),
        }
    }

    /// A message with the given tag, timestamp and payload, and no nonce,
    /// session or sequence number.
    pub fn stamped(msg_type: &str, ts: i64, payload: MessagePayload) -> (r: Message)
        ensures
            r@ == bare_message(msg_type@, ts, payload@),
    {
        Message {
            msg_type: String::from_str(msg_type),
            ts,
            nonce: None,
            session_id: None,
            seq: None,
            payload,
        }
    }

    /// A message with the given tag and payload, stamped with the current
    /// time.
    pub fn new(msg_type: &str, payload: MessagePayload) -> (r: Message)
        ensures
            r@ == bare_message(msg_type@, r.ts, payload@),
    {
        Message::stamped(msg_type, unix_now(), payload)
    }

    /// The same message with another timestamp.
    pub fn at(self, ts: i64) -> (r: Message)
        ensures
            r@ == (MessageView { ts, ..self@ }),
    {
        let mut m = self;
        m.ts = ts;
        m
    }

    /// The same message with a nonce.
    pub fn with_nonce(self, nonce: String) -> (r: Message)
        ensures
            r@ == (MessageView { nonce: Some(nonce@), ..self@ }),
    {
        let mut m = self;
        m.nonce = Some(nonce);
        m
    }

    /// The same message bound to a session and a sequence number.
    pub fn with_session(self, session_id: String, seq: u64) -> (r: Message)
        ensures
            r@ == (MessageView { session_id: Some(session_id@), seq: Some(seq), ..self@ }),
    {
        let mut m = self;
        m.session_id = Some(session_id);
        m.seq = Some(seq);
        m
    }

    /// The client's opening message.
    pub fn hello(client_id: String) -> (r: Message)
        ensures
            r@ == bare_message("hello"@, r.ts, PayloadView::Hello { client_id: client_id@ }),
    {
        Message::new("hello", MessagePayload::Hello(HelloPayload { client_id }))
    }

    /// The server's challenge with its nonce.
    pub fn challenge(server_nonce: String) -> (r: Message)
        ensures
            r@ == bare_message(
                "challenge"@,
                r.ts,
                PayloadView::Challenge { server_nonce: server_nonce@ },
            ),
    {
        Message::new("challenge", MessagePayload::Challenge(ChallengePayload { server_nonce }))
    }

    /// The client's proof: both nonces and the signature over them.
    pub fn auth(client_id: String, server_nonce: String, client_nonce: String, sig: String) -> (r:
        Message)
        ensures
            r@ == bare_message(
                "auth"@,
                r.ts,
                PayloadView::Auth {
                    client_id: client_id@,
                    server_nonce: server_nonce@,
                    client_nonce: client_nonce@,
                    sig: sig@,
                },
            ),
    {
        Message::new(
            "auth",
            MessagePayload::Auth(AuthPayload { client_id, server_nonce, client_nonce, sig }),
        )
    }

    /// The server's acceptance; it carries the session id and sequence
    /// number 0.
    pub fn auth_ok(session_id: String) -> (r: Message)
        ensures
            r@ == session_message(
                "auth_ok"@,
                r.ts,
                session_id@,
                0,
                PayloadView::AuthOk { message: auth_ok_text() },
            ),
    {
        Message::new(
            "auth_ok",
            MessagePayload::AuthOk(
                AuthOkPayload { message: String::from_str("Authentication successful") },
            ),
        ).with_session(session_id, 0)
    }

    /// A signed command within a session.
    pub fn cmd(
        session_id: String,
        seq: u64,
        nonce: String,
        cmd: String,
        args: JsonValue,
        sig: String,
    ) -> (r: Message)
        ensures
            r@ == (MessageView {
                nonce: Some(nonce@),
                ..session_message(
                    "cmd"@,
                    r.ts,
                    session_id@,
                    seq,
                    PayloadView::Cmd { cmd: cmd@, args: args.model(), sig: sig@ },
                )
            }),
    {
        Message::new("cmd", MessagePayload::Cmd(CmdPayload { cmd, args, sig })).with_session(
            session_id,
            seq,
        ).with_nonce(nonce)
    }

    /// The answer to the command with the given sequence number.
    pub fn resp(session_id: String, seq: u64, status: String, result: Option<JsonValue>) -> (r:
        Message)
        ensures
            r@ == session_message(
                "resp"@,
                r.ts,
                session_id@,
                seq,
                PayloadView::Resp { status: status@, result: json_of(result), error: None },
            ),
    {
        Message::new(
            "resp",
            MessagePayload::Resp(RespPayload { status, result, error: None }),
        ).with_session(session_id, seq)
    }

    /// The answer to a command that failed.
    pub fn resp_error(session_id: String, seq: u64, error: String) -> (r: Message)
        ensures
            r@ == session_message(
                "resp"@,
                r.ts,
                session_id@,
                seq,
                PayloadView::Resp { status: "error"@, result: None, error: Some(error@) },
            ),
    {
        Message::new(
            "resp",
            MessagePayload::Resp(
                RespPayload { status: String::from_str("error"), result: None, error: Some(error) },
            ),
        ).with_session(session_id, seq)
    }

    /// A heartbeat request.
    pub fn ping() -> (r: Message)
        ensures
            r@ == bare_message("ping"@, r.ts, PayloadView::Ping),
    {
        Message::new("ping", MessagePayload::Ping(PingPayload {  }))
    }

    /// A heartbeat answer.
    pub fn pong() -> (r: Message)
        ensures
            r@ == bare_message("pong"@, r.ts, PayloadView::Pong),
    {
        Message::new("pong", MessagePayload::Pong(PongPayload {  }))
    }

    /// An error reported outside any command.
    pub fn error(error: String, code: Option<String>) -> (r: Message)
        ensures
            r@ == bare_message(
                "err"@,
                r.ts,
                PayloadView::Error { error: error@, code: text_of(code) },
            ),
    {
        Message::new("err", MessagePayload::Error(ErrPayload { error, code }))
    }
}

} // verus!
