//! The client's side of a connection: the handshake as a sequence of steps,
//! and the signing of commands under the session key with a sequence number
//! that only grows.

use crate::clock::unix_now;
use crate::crypto::{
    auth_signature, canonical_json, cmd_signature, compute_auth_signature,
    compute_cmd_signature, derive_session_key, generate_nonce, session_key,
};
use crate::error::{outcome, ErrorView, ProtocolError};
use crate::framing::DEFAULT_MAX_FRAME_SIZE;
use crate::hexcode::is_lower_hex;
use crate::json::{JsonModel, JsonValue};
use crate::messages::{
    bare_message, session_message, AuthPayload, CmdPayload, HelloPayload, Message,
    MessagePayload, MessageView, PayloadView, PingPayload,
};
use crate::text::str_equal;
use vstd::prelude::*;
use vstd::string::*;

verus! {

/// Where the client stands in a handshake.
#[derive(Debug)]
pub enum Handshake {
    /// No handshake is under way.
    Idle,
    /// `hello` was sent.
    AwaitingChallenge,
    /// `auth` was sent with these nonces.
    AwaitingAuthOk { server_nonce: String, client_nonce: String },
}

/// The mathematical content of a [`Handshake`].
pub enum HandshakeView {
    Idle,
    AwaitingChallenge,
    AwaitingAuthOk { server_nonce: Seq<char>, client_nonce: Seq<char> },
}

impl View for Handshake {
    type V = HandshakeView;

    open spec fn view(&self) -> HandshakeView {
        match self {
            Handshake::Idle => HandshakeView::Idle,
            Handshake::AwaitingChallenge => HandshakeView::AwaitingChallenge,
            Handshake::AwaitingAuthOk { server_nonce, client_nonce } => HandshakeView::AwaitingAuthOk {
                server_nonce: server_nonce@,
                client_nonce: client_nonce@,
            },
        }
    }
}

/// What a step of the client takes from outside the protocol.
#[derive(Debug)]
pub struct ClientAmbient {
    /// The wall clock in seconds since the Unix epoch.
    pub unix_time: i64,
    /// A nonce that was not used before.
    pub nonce: String,
}

/// The client's cursor in the protocol.
pub struct C2Client {
    client_id: String,
    psk: Vec<u8>,
    session_id: Option<String>,
    session_key: Option<Vec<u8>>,
    seq: u64,
    handshake: Handshake,
    max_frame_size: u32,
    read_timeout_secs: u64,
    write_timeout_secs: u64,
}

/// The mathematical content of a [`C2Client`].
pub struct ClientView {
    pub client_id: Seq<char>,
    pub psk: Seq<u8>,
    pub session_id: Option<Seq<char>>,
    pub session_key: Option<Seq<u8>>,
    /// The sequence number of the last command that was signed.
    pub seq: u64,
    pub handshake: HandshakeView,
    pub max_frame_size: u32,
    pub read_timeout_secs: u64,
    pub write_timeout_secs: u64,
}

impl View for C2Client {
    type V = ClientView;

    closed spec fn view(&self) -> ClientView {
        ClientView {
            client_id: self.client_id@,
            psk: self.psk@,
            session_id: match self.session_id {
                Some(s) => Some(s@),
                None => None,
            },
            session_key: match self.session_key {
                Some(k) => Some(k@),
                None => None,
            },
            seq: self.seq,
            handshake: self.handshake@,
            max_frame_size: self.max_frame_size,
            read_timeout_secs: self.read_timeout_secs,
            write_timeout_secs: self.write_timeout_secs,
        }
    }
}

/// The client after a handshake step that failed: no handshake is under way
/// and the session, if there was one, is as before.
pub open spec fn abandoned(c: ClientView) -> ClientView {
    ClientView { handshake: HandshakeView::Idle, ..c }
}

/// A step of the handshake. Without a message the handshake starts, or
/// starts over, with `hello`. A `challenge` is answered with `auth`, signed
/// over client id, the server's nonce and the fresh nonce. An `auth_ok` that
/// carries a session id ends the handshake: the session key is derived and
/// the sequence counter starts at 0. Any other message fails the handshake.
pub open spec fn handshake_step(
    c: ClientView,
    received: Option<MessageView>,
    unix_time: i64,
    nonce: Seq<char>,
) -> (ClientView, Result<Option<MessageView>, ErrorView>) {
    match received {
        None => (
            ClientView { handshake: HandshakeView::AwaitingChallenge, ..c },
            Ok(
                Some(
                    bare_message("hello"@, unix_time, PayloadView::Hello { client_id: c.client_id }),
                ),
            ),
        ),
        Some(m) => match c.handshake {
            HandshakeView::Idle => (c, Err(ErrorView::AuthFailed("handshake not started"@))),
            HandshakeView::AwaitingChallenge => {
                if m.msg_type != "challenge"@ {
                    (abandoned(c), Err(ErrorView::InvalidMessageType(m.msg_type)))
                } else {
                    match m.payload {
                        PayloadView::Challenge { server_nonce } => (
                            ClientView {
                                handshake: HandshakeView::AwaitingAuthOk {
                                    server_nonce,
                                    client_nonce: nonce,
                                },
                                ..c
                            },
                            Ok(
                                Some(
                                    bare_message(
                                        "auth"@,
                                        unix_time,
                                        PayloadView::Auth {
                                            client_id: c.client_id,
                                            server_nonce,
                                            client_nonce: nonce,
                                            sig: auth_signature(
                                                c.psk,
                                                c.client_id,
                                                server_nonce,
                                                nonce,
                                            ),
                                        },
                                    ),
                                ),
                            ),
                        ),
                        _ => (
                            abandoned(c),
                            Err(ErrorView::InvalidMessageType("expected challenge"@)),
                        ),
                    }
                }
            },
            HandshakeView::AwaitingAuthOk { server_nonce, client_nonce } => {
                if m.msg_type != "auth_ok"@ {
                    (abandoned(c), Err(ErrorView::InvalidMessageType(m.msg_type)))
                } else {
                    match m.session_id {
                        None => (
                            abandoned(c),
                            Err(ErrorView::AuthFailed("no session_id in auth_ok"@)),
                        ),
                        Some(id) => (
                            ClientView {
                                session_id: Some(id),
                                session_key: Some(session_key(c.psk, id, server_nonce, client_nonce)),
                                seq: 0,
                                handshake: HandshakeView::Idle,
                                ..c
                            },
                            Ok(None),
                        ),
                    }
                }
            },
        },
    }
}

/// The next command of an authenticated client: it carries the sequence
/// number after the last one, the fresh nonce and the signature over both
/// with the command and its arguments.
pub open spec fn command_message(
    c: ClientView,
    cmd: Seq<char>,
    args: JsonModel,
    unix_time: i64,
    nonce: Seq<char>,
) -> Result<MessageView, ErrorView> {
    match c.session_id {
        None => Err(ErrorView::AuthFailed("not authenticated"@)),
        Some(id) => match c.session_key {
            None => Err(ErrorView::AuthFailed("no session key"@)),
            Some(key) => Ok(
                MessageView {
                    nonce: Some(nonce),
                    ..session_message(
                        "cmd"@,
                        unix_time,
                        id,
                        (c.seq + 1) as u64,
                        PayloadView::Cmd {
                            cmd,
                            args,
                            sig: cmd_signature(
                                key,
                                id,
                                (c.seq + 1) as u64,
                                nonce,
                                cmd,
                                canonical_json(args),
                            ),
                        },
                    )
                },
            ),
        },
    }
}

/// What a response means to the client: the result of the command, `null`
/// where the response carries none, or the error that the server reports.
/// The sequence number of the response plays no part.
pub open spec fn response_meaning(m: MessageView) -> Result<JsonModel, ErrorView> {
    if m.msg_type != "resp"@ {
        Err(ErrorView::InvalidMessageType(m.msg_type))
    } else {
        match m.payload {
            PayloadView::Resp { status, result, error } => {
                if status == "error"@ {
                    match error {
                        Some(text) => Err(ErrorView::AuthFailed(text)),
                        None => Err(ErrorView::AuthFailed("unknown error"@)),
                    }
                } else {
                    match result {
                        Some(v) => Ok(v),
                        None => Ok(JsonModel::Null),
                    }
                }
            },
            _ => Err(ErrorView::InvalidMessageType("expected resp"@)),
        }
    }
}

/// What a message means as the answer to a ping.
pub open spec fn pong_meaning(m: MessageView) -> Result<(), ErrorView> {
    if m.msg_type != "pong"@ {
        Err(ErrorView::InvalidMessageType(m.msg_type))
    } else {
        Ok(())
    }
}

/// The content of what was received, if anything.
pub open spec fn received_view(received: Option<Message>) -> Option<MessageView> {
    match received {
        Some(m) => Some(m@),
        None => None,
    }
}

/// The content of the outcome of a handshake step.
pub open spec fn step_view(r: Result<Option<Message>, ProtocolError>) -> Result<
    Option<MessageView>,
    ErrorView,
> {
    match r {
        Ok(Some(m)) => Ok(Some(m@)),
        Ok(None) => Ok(None),
        Err(e) => Err(e@),
    }
}

/// The content of an outcome that holds a message.
pub open spec fn message_outcome(r: Result<Message, ProtocolError>) -> Result<MessageView, ErrorView> {
    match r {
        Ok(m) => Ok(m@),
        Err(e) => Err(e@),
    }
}

/// The content of an outcome that holds a JSON value.
pub open spec fn value_outcome(r: Result<JsonValue, ProtocolError>) -> Result<JsonModel, ErrorView> {
    match r {
        Ok(v) => Ok(v.model()),
        Err(e) => Err(e@),
    }
}

impl ClientAmbient {
    /// Reads the wall clock and draws a fresh nonce.
    pub fn read() -> (r: ClientAmbient)
        ensures
            r.nonce@.len() == 32,
            is_lower_hex(r.nonce@),
    {
        ClientAmbient { unix_time: unix_now(), nonce: generate_nonce() }
    }
}

impl C2Client {
    /// A client that has no session yet.
    pub fn new(client_id: String, psk: Vec<u8>, read_timeout_secs: u64, write_timeout_secs: u64) -> (r:
        Self)
        ensures
            r@ == (ClientView {
                client_id: client_id@,
                psk: psk@,
                session_id: None,
                session_key: None,
                seq: 0,
                handshake: HandshakeView::Idle,
                max_frame_size: DEFAULT_MAX_FRAME_SIZE,
                read_timeout_secs,
                write_timeout_secs,
            }),
    {
        Self {
            client_id,
            psk,
            session_id: None,
            session_key: None,
            seq: 0,
            handshake: Handshake::Idle,
            max_frame_size: DEFAULT_MAX_FRAME_SIZE,
            read_timeout_secs,
            write_timeout_secs,
        }
    }

    /// The largest payload of a frame that the client accepts.
    pub fn max_frame_size(&self) -> (r: u32)
        ensures
            r == self@.max_frame_size,
    {
        self.max_frame_size
    }

    /// The time that a read may take, in seconds.
    pub fn read_timeout_secs(&self) -> (r: u64)
        ensures
            r == self@.read_timeout_secs,
    {
        self.read_timeout_secs
    }

    /// The time that a write may take, in seconds.
    pub fn write_timeout_secs(&self) -> (r: u64)
        ensures
            r == self@.write_timeout_secs,
    {
        self.write_timeout_secs
    }

    /// The sequence number of the last command that was signed.
    pub fn sequence(&self) -> (r: u64)
        ensures
            r == self@.seq,
    {
        self.seq
    }

    /// Whether the client holds a session.
    pub fn is_authenticated(&self) -> (r: bool)
        ensures
            r == (self@.session_id is Some && self@.session_key is Some),
    {
        self.session_id.is_some() && self.session_key.is_some()
    }

    /// A step of the handshake for a given reading of the clock and a given
    /// fresh nonce: the message to send next, or `None` when the handshake
    /// is done.
    pub fn authenticate_at(&mut self, received: Option<Message>, env: ClientAmbient) -> (r: Result<
        Option<Message>,
        ProtocolError,
    >)
        ensures
            final(self)@ == handshake_step(
                old(self)@,
                received_view(received),
                env.unix_time,
                env.nonce@,
            ).0,
            step_view(r) == handshake_step(
                old(self)@,
                received_view(received),
                env.unix_time,
                env.nonce@,
            ).1,
    {
        let m = match received {
            None => {
                self.handshake = Handshake::AwaitingChallenge;
                return Ok(
                    Some(
                        Message::stamped(
                            "hello",
                            env.unix_time,
                            MessagePayload::Hello(
                                HelloPayload { client_id: self.client_id.clone() },
                            ),
                        ),
                    ),
                );
            },
            Some(m) => m,
        };
        let mut current = Handshake::Idle;
        std::mem::swap(&mut self.handshake, &mut current);
        match current {
            Handshake::Idle => Err(
                ProtocolError::AuthFailed(String::from_str("handshake not started")),
            ),
            Handshake::AwaitingChallenge => {
                if !str_equal(m.msg_type.as_str(), "challenge") {
                    return Err(ProtocolError::InvalidMessageType(m.msg_type));
                }
                let server_nonce = match m.payload {
                    MessagePayload::Challenge(p) => p.server_nonce,
                    _ => {
                        return Err(
                            ProtocolError::InvalidMessageType(
                                String::from_str("expected challenge"),
                            ),
                        );
                    },
                };
                let sig = compute_auth_signature(
                    self.psk.as_slice(),
                    self.client_id.as_str(),
                    server_nonce.as_str(),
                    env.nonce.as_str(),
                );
                let auth = Message::stamped(
                    "auth",
                    env.unix_time,
                    MessagePayload::Auth(
                        AuthPayload {
                            client_id: self.client_id.clone(),
                            server_nonce: server_nonce.clone(),
                            client_nonce: env.nonce.clone(),
                            sig,
                        },
                    ),
                );
                self.handshake = Handshake::AwaitingAuthOk { server_nonce, client_nonce: env.nonce };
                Ok(Some(auth))
            },
            Handshake::AwaitingAuthOk { server_nonce, client_nonce } => {
                if !str_equal(m.msg_type.as_str(), "auth_ok") {
                    return Err(ProtocolError::InvalidMessageType(m.msg_type));
                }
                let session_id = match m.session_id {
                    Some(id) => id,
                    None => {
                        return Err(
                            ProtocolError::AuthFailed(String::from_str("no session_id in auth_ok")),
                        );
                    },
                };
                let key = derive_session_key(
                    self.psk.as_slice(),
                    session_id.as_str(),
                    server_nonce.as_str(),
                    client_nonce.as_str(),
                );
                self.session_id = Some(session_id);
                self.session_key = Some(key);
                self.seq = 0;
                Ok(None)
            },
        }
    }

    /// A step of the handshake with the clock as it reads now and a nonce
    /// drawn for it.
    pub fn authenticate(&mut self, received: Option<Message>) -> (r: Result<
        Option<Message>,
        ProtocolError,
    >)
        ensures
            exists|unix_time: i64, nonce: Seq<char>|
                nonce.len() == 32 && is_lower_hex(nonce) && (#[trigger] handshake_step(
                    old(self)@,
                    received_view(received),
                    unix_time,
                    nonce,
                )) == (final(self)@, step_view(r)),
    {
        let env = ClientAmbient::read();
        let ghost t = env.unix_time;
        let ghost n = env.nonce@;
        let r = self.authenticate_at(received, env);
        assert(handshake_step(old(self)@, received_view(received), t, n) == (
            self@,
            step_view(r),
        ));
        r
    }

    /// Signs the next command for a given reading of the clock and a given
    /// fresh nonce. The sequence counter moves on where a message is made,
    /// and only then.
    pub fn send_command_at(&mut self, cmd: &str, args: JsonValue, env: ClientAmbient) -> (r: Result<
        Message,
        ProtocolError,
    >)
        requires
            old(self)@.seq < u64::MAX,
        ensures
            message_outcome(r) == command_message(
                old(self)@,
                cmd@,
                args.model(),
                env.unix_time,
                env.nonce@,
            ),
            r is Ok ==> final(self)@ == (ClientView {
                seq: (old(self)@.seq + 1) as u64,
                ..old(self)@
            }),
            r is Err ==> final(self)@ == old(self)@,
    {
        let session_id = match &self.session_id {
            Some(id) => id.clone(),
            None => {
                return Err(ProtocolError::AuthFailed(String::from_str("not authenticated")));
            },
        };
        let seq = self.seq + 1;
        let sig = match &self.session_key {
            Some(key) => compute_cmd_signature(
                key.as_slice(),
                session_id.as_str(),
                seq,
                env.nonce.as_str(),
                cmd,
                &args,
            ),
            None => {
                return Err(ProtocolError::AuthFailed(String::from_str("no session key")));
            },
        };
        self.seq = seq;
        Ok(
            Message::stamped(
                "cmd",
                env.unix_time,
                MessagePayload::Cmd(CmdPayload { cmd: String::from_str(cmd), args, sig }),
            ).with_session(session_id, seq).with_nonce(env.nonce),
        )
    }

    /// Signs the next command with the clock as it reads now and a nonce
    /// drawn for it.
    pub fn send_command(&mut self, cmd: &str, args: JsonValue) -> (r: Result<Message, ProtocolError>)
        requires
            old(self)@.seq < u64::MAX,
        ensures
            exists|unix_time: i64, nonce: Seq<char>|
                nonce.len() == 32 && is_lower_hex(nonce) && message_outcome(r)
                    == #[trigger] command_message(
                    old(self)@,
                    cmd@,
                    args.model(),
                    unix_time,
                    nonce,
                ),
            r is Ok ==> final(self)@ == (ClientView {
                seq: (old(self)@.seq + 1) as u64,
                ..old(self)@
            }),
            r is Err ==> final(self)@ == old(self)@,
    {
        let env = ClientAmbient::read();
        let ghost t = env.unix_time;
        let ghost n = env.nonce@;
        let r = self.send_command_at(cmd, args, env);
        assert(message_outcome(r) == command_message(old(self)@, cmd@, args.model(), t, n));
        r
    }

    /// Whether a response carries the sequence number of the last command
    /// that was signed. A response that does not is still the answer.
    pub fn response_in_order(&self, response: &Message) -> (r: bool)
        ensures
            r == (response@.seq == Some(self@.seq)),
    {
        match response.seq {
            Some(s) => s == self.seq,
            None => false,
        }
    }

    /// Reads the answer to a command.
    pub fn read_response(response: Message) -> (r: Result<JsonValue, ProtocolError>)
        ensures
            value_outcome(r) == response_meaning(response@),
    {
        if !str_equal(response.msg_type.as_str(), "resp") {
            return Err(ProtocolError::InvalidMessageType(response.msg_type));
        }
        let payload = match response.payload {
            MessagePayload::Resp(p) => p,
            _ => {
                return Err(ProtocolError::InvalidMessageType(String::from_str("expected resp")));
            },
        };
        if str_equal(payload.status.as_str(), "error") {
            let text = match payload.error {
                Some(t) => t,
                None => String::from_str("unknown error"),
            };
            return Err(ProtocolError::AuthFailed(text));
        }
        match payload.result {
            Some(v) => Ok(v),
            None => Ok(JsonValue::Null),
        }
    }

    /// A heartbeat request stamped with the given time.
    pub fn ping_at(&self, unix_time: i64) -> (r: Message)
        ensures
            r@ == bare_message("ping"@, unix_time, PayloadView::Ping),
    {
        Message::stamped("ping", unix_time, MessagePayload::Ping(PingPayload {  }))
    }

    /// A heartbeat request stamped with the current time.
    pub fn ping(&self) -> (r: Message)
        ensures
            r@ == bare_message("ping"@, r.ts, PayloadView::Ping),
    {
        self.ping_at(unix_now())
    }

    /// Reads the answer to a heartbeat request.
    pub fn read_pong(response: &Message) -> (r: Result<(), ProtocolError>)
        ensures
            outcome(r) == pong_meaning(response@),
    {
        if !str_equal(response.msg_type.as_str(), "pong") {
            return Err(ProtocolError::InvalidMessageType(response.msg_type.clone()));
        }
        Ok(())
    }
}

} // verus!
