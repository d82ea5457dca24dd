//! The server's side of a connection as a state machine: one step takes the
//! state of the connection and what happened on it, and yields the next
//! state and what to do. Reading, writing and timing are left to the
//! caller; a step holds the session store exclusively while it runs.

use crate::clock::{elapsed_since, wall_clock};
use crate::commands::{command_result, execute_command_at, CommandContext};
use crate::crypto::{canonical_json, cmd_signature, generate_nonce, verify_cmd_signature};
use crate::error::{error_text, ErrorView, ProtocolError};
use crate::hexcode::is_lower_hex;
use crate::json::JsonModel;
use crate::messages::{
    auth_ok_text, bare_message, session_message, AuthOkPayload, ChallengePayload, ErrPayload,
    Message, MessagePayload, MessageView, PayloadView, PongPayload, RespPayload,
};
use crate::session::{
    auth_outcome, client_outcome, new_session, record_outcome, recorded, seq_advanced,
    seq_outcome, timestamp_outcome, SessionManager, StoreView,
};
use crate::text::{concat2, str_equal};
use vstd::prelude::*;
use vstd::string::*;

verus! {

/// Where a connection stands.
#[derive(Debug)]
pub enum ConnectionPhase {
    /// Nothing was received yet.
    AwaitingHello,
    /// The challenge was sent to the client that announced itself.
    AwaitingAuth { client_id: String, server_nonce: String },
    /// The handshake is done; commands of the session are served.
    Authenticated { session_id: String },
    /// The connection is over.
    Closed,
}

/// The mathematical content of a [`ConnectionPhase`].
pub enum PhaseView {
    AwaitingHello,
    AwaitingAuth { client_id: Seq<char>, server_nonce: Seq<char> },
    Authenticated { session_id: Seq<char> },
    Closed,
}

impl View for ConnectionPhase {
    type V = PhaseView;

    open spec fn view(&self) -> PhaseView {
        match self {
            ConnectionPhase::AwaitingHello => PhaseView::AwaitingHello,
            ConnectionPhase::AwaitingAuth { client_id, server_nonce } => PhaseView::AwaitingAuth {
                client_id: client_id@,
                server_nonce: server_nonce@,
            },
            ConnectionPhase::Authenticated { session_id } => PhaseView::Authenticated {
                session_id: session_id@,
            },
            ConnectionPhase::Closed => PhaseView::Closed,
        }
    }
}

/// What happened on a connection.
#[derive(Debug)]
pub enum ConnectionEvent {
    /// A frame was read and held a message.
    Received(Message),
    /// Reading, decoding or writing failed; a timeout of a read or a write
    /// is an I/O failure.
    Failed(ProtocolError),
    /// The handshake has taken longer than it may.
    AuthTimeout,
}

/// The mathematical content of a [`ConnectionEvent`].
pub enum EventView {
    Received(MessageView),
    Failed(ErrorView),
    AuthTimeout,
}

impl View for ConnectionEvent {
    type V = EventView;

    open spec fn view(&self) -> EventView {
        match self {
            ConnectionEvent::Received(m) => EventView::Received(m@),
            ConnectionEvent::Failed(e) => EventView::Failed(e@),
            ConnectionEvent::AuthTimeout => EventView::AuthTimeout,
        }
    }
}

/// What to do next on a connection.
#[derive(Debug)]
pub enum ConnectionAction {
    /// Write the message, then read on.
    Reply(Message),
    /// Read on.
    Continue,
    /// Try to write the message, whether or not that works, then close.
    Reject(Message),
    /// Close.
    Close,
}

/// The mathematical content of a [`ConnectionAction`].
pub enum ActionView {
    Reply(MessageView),
    Continue,
    Reject(MessageView),
    Close,
}

impl View for ConnectionAction {
    type V = ActionView;

    open spec fn view(&self) -> ActionView {
        match self {
            ConnectionAction::Reply(m) => ActionView::Reply(m@),
            ConnectionAction::Continue => ActionView::Continue,
            ConnectionAction::Reject(m) => ActionView::Reject(m@),
            ConnectionAction::Close => ActionView::Close,
        }
    }
}

/// What a step takes from outside the protocol: readings of the clocks and
/// a fresh random nonce.
#[derive(Debug)]
pub struct Ambient {
    /// The wall clock in seconds since the Unix epoch.
    pub unix_time: i64,
    /// The same reading of the wall clock as RFC 3339 text.
    pub iso8601: String,
    /// The session store's clock in nanoseconds.
    pub clock: u128,
    /// Whole seconds since the server started.
    pub uptime_secs: u64,
    /// A nonce that was not used before.
    pub nonce: String,
}

/// The mathematical content of an [`Ambient`].
pub struct AmbientView {
    pub unix_time: i64,
    pub iso8601: Seq<char>,
    pub clock: u128,
    pub uptime_secs: u64,
    pub nonce: Seq<char>,
}

impl View for Ambient {
    type V = AmbientView;

    open spec fn view(&self) -> AmbientView {
        AmbientView {
            unix_time: self.unix_time,
            iso8601: self.iso8601@,
            clock: self.clock,
            uptime_secs: self.uptime_secs,
            nonce: self.nonce@,
        }
    }
}

/// The outcome of a step: the session store, the state of the connection and
/// the action.
pub struct Step {
    pub store: StoreView,
    pub phase: PhaseView,
    pub action: ActionView,
}

/// An error message outside any command.
pub open spec fn error_notice(text: Seq<char>, ts: i64) -> MessageView {
    bare_message("err"@, ts, PayloadView::Error { error: text, code: None })
}

/// A failed handshake: the peer is told why, as far as it can be told, and
/// the connection is closed.
pub open spec fn refuse(store: StoreView, e: ErrorView, env: AmbientView) -> Step {
    Step {
        store,
        phase: PhaseView::Closed,
        action: ActionView::Reject(
            error_notice("Authentication failed: "@ + error_text(e), env.unix_time),
        ),
    }
}

/// A handshake that has taken too long.
pub open spec fn timed_out(store: StoreView, env: AmbientView) -> Step {
    Step {
        store,
        phase: PhaseView::Closed,
        action: ActionView::Reject(error_notice("Authentication timeout"@, env.unix_time)),
    }
}

/// The first step of the handshake: a `hello` from an admitted client is
/// answered with a challenge that carries the fresh nonce.
pub open spec fn hello_step(store: StoreView, m: MessageView, env: AmbientView) -> Step {
    if m.msg_type != "hello"@ {
        refuse(store, ErrorView::InvalidMessageType(m.msg_type), env)
    } else {
        match m.payload {
            PayloadView::Hello { client_id } => match client_outcome(store.allowed, client_id) {
                Err(e) => refuse(store, e, env),
                Ok(_) => Step {
                    store,
                    phase: PhaseView::AwaitingAuth { client_id, server_nonce: env.nonce },
                    action: ActionView::Reply(
                        bare_message(
                            "challenge"@,
                            env.unix_time,
                            PayloadView::Challenge { server_nonce: env.nonce },
                        ),
                    ),
                },
            },
            _ => refuse(store, ErrorView::InvalidMessageType("expected hello"@), env),
        }
    }
}

/// The key under which a handshake attempt is entered in the nonce ledger.
pub open spec fn nonce_key(client_id: Seq<char>, server_nonce: Seq<char>, client_nonce: Seq<char>) -> Seq<
    char,
> {
    client_id + ":"@ + server_nonce + ":"@ + client_nonce
}

/// The second step of the handshake. The `auth` message must be timely,
/// repeat client id and server nonce, carry a nonce key that is no replay and
/// the right signature; the checks are made in this order and the first one
/// that fails ends the handshake. The nonce key is entered in the ledger
/// before the signature is checked. Where all pass, a session with the fresh
/// nonce as its id is made and announced.
pub open spec fn auth_step(
    store: StoreView,
    client_id: Seq<char>,
    server_nonce: Seq<char>,
    m: MessageView,
    env: AmbientView,
) -> Step {
    if m.msg_type != "auth"@ {
        refuse(store, ErrorView::InvalidMessageType(m.msg_type), env)
    } else if timestamp_outcome(m.ts, env.unix_time, store.skew) is Err {
        refuse(store, ErrorView::TimestampOutOfBounds(m.ts), env)
    } else {
        match m.payload {
            PayloadView::Auth { client_id: c, server_nonce: s, client_nonce, sig } => {
                if c != client_id {
                    refuse(store, ErrorView::AuthFailed("client_id mismatch"@), env)
                } else if s != server_nonce {
                    refuse(store, ErrorView::AuthFailed("server_nonce mismatch"@), env)
                } else {
                    let key = nonce_key(client_id, server_nonce, client_nonce);
                    let noted = StoreView {
                        ledger: recorded(store.ledger, key, env.clock, store.ttl),
                        ..store
                    };
                    if record_outcome(store.ledger, key, env.clock, store.ttl) is Err {
                        refuse(noted, ErrorView::ReplayDetected, env)
                    } else if auth_outcome(store.psk, client_id, server_nonce, client_nonce, sig)
                        is Err {
                        refuse(noted, ErrorView::InvalidSignature, env)
                    } else {
                        let session = new_session(
                            store.psk,
                            env.nonce,
                            client_id,
                            server_nonce,
                            client_nonce,
                            env.clock,
                        );
                        Step {
                            store: StoreView {
                                sessions: noted.sessions.insert(env.nonce, session),
                                ..noted
                            },
                            phase: PhaseView::Authenticated { session_id: env.nonce },
                            action: ActionView::Reply(
                                session_message(
                                    "auth_ok"@,
                                    env.unix_time,
                                    env.nonce,
                                    0,
                                    PayloadView::AuthOk { message: auth_ok_text() },
                                ),
                            ),
                        }
                    }
                }
            },
            _ => refuse(store, ErrorView::InvalidMessageType("expected auth"@), env),
        }
    }
}

/// A command that has passed all checks.
pub struct Accepted {
    pub seq: u64,
    pub cmd: Seq<char>,
    pub args: JsonModel,
}

/// The checks on a command, in order: it has the shape of a command, a
/// sequence number and a nonce; it is timely; its sequence number exceeds
/// the session's cursor, which then moves to it; its signature under the
/// session key is right. The first check that fails decides the error. The
/// cursor has moved where the signature is found wrong.
pub open spec fn check_command(
    store: StoreView,
    session_id: Seq<char>,
    m: MessageView,
    env: AmbientView,
) -> (StoreView, Result<Accepted, ErrorView>) {
    match m.payload {
        PayloadView::Cmd { cmd, args, sig } => {
            if m.seq is None {
                (store, Err(ErrorView::InvalidMessageType("cmd missing seq"@)))
            } else if m.nonce is None {
                (store, Err(ErrorView::InvalidMessageType("cmd missing nonce"@)))
            } else if timestamp_outcome(m.ts, env.unix_time, store.skew) is Err {
                (store, Err(ErrorView::TimestampOutOfBounds(m.ts)))
            } else {
                let seq = m.seq->Some_0;
                let nonce = m.nonce->Some_0;
                match seq_outcome(store.sessions, session_id, seq) {
                    Err(e) => (store, Err(e)),
                    Ok(_) => {
                        let moved = StoreView {
                            sessions: seq_advanced(store.sessions, session_id, seq),
                            ..store
                        };
                        if sig == cmd_signature(
                            store.sessions[session_id].session_key,
                            session_id,
                            seq,
                            nonce,
                            cmd,
                            canonical_json(args),
                        ) {
                            (moved, Ok(Accepted { seq, cmd, args }))
                        } else {
                            (moved, Err(ErrorView::InvalidSignature))
                        }
                    },
                }
            }
        },
        _ => (store, Err(ErrorView::InvalidMessageType("expected cmd"@))),
    }
}

/// The answer to a command that failed a check or in execution.
pub open spec fn error_response(session_id: Seq<char>, seq: u64, text: Seq<char>, ts: i64) -> MessageView {
    session_message(
        "resp"@,
        ts,
        session_id,
        seq,
        PayloadView::Resp { status: "error"@, result: None, error: Some(text) },
    )
}

/// The answer to a command that was run.
pub open spec fn success_response(session_id: Seq<char>, seq: u64, value: JsonModel, ts: i64) -> MessageView {
    session_message(
        "resp"@,
        ts,
        session_id,
        seq,
        PayloadView::Resp { status: "success"@, result: Some(value), error: None },
    )
}

/// The sequence number that the answer to a message carries where the
/// message has none.
pub open spec fn seq_or_zero(seq: Option<u64>) -> u64 {
    match seq {
        Some(s) => s,
        None => 0,
    }
}

/// A step of an authenticated connection on a message. A command is
/// checked, run where it passes, and answered under its sequence number;
/// a failed check is answered with its error and the connection goes on. A
/// ping is answered with a pong. Any other message is passed over.
pub open spec fn command_step(
    store: StoreView,
    version: Seq<char>,
    session_id: Seq<char>,
    m: MessageView,
    env: AmbientView,
) -> Step {
    let phase = PhaseView::Authenticated { session_id };
    if m.msg_type == "cmd"@ {
        let (after, checked) = check_command(store, session_id, m, env);
        let reply = match checked {
            Ok(accepted) => match command_result(
                accepted.cmd,
                accepted.args,
                version,
                env.unix_time,
                env.iso8601,
                env.uptime_secs,
            ) {
                Ok(value) => success_response(session_id, accepted.seq, value, env.unix_time),
                Err(text) => error_response(session_id, accepted.seq, text, env.unix_time),
            },
            Err(e) => error_response(session_id, seq_or_zero(m.seq), error_text(e), env.unix_time),
        };
        Step { store: after, phase, action: ActionView::Reply(reply) }
    } else if m.msg_type == "ping"@ {
        Step {
            store,
            phase,
            action: ActionView::Reply(bare_message("pong"@, env.unix_time, PayloadView::Pong)),
        }
    } else {
        Step { store, phase, action: ActionView::Continue }
    }
}

/// The end of an authenticated connection: its session is removed.
pub open spec fn hang_up(store: StoreView, session_id: Seq<char>) -> Step {
    Step {
        store: StoreView { sessions: store.sessions.remove(session_id), ..store },
        phase: PhaseView::Closed,
        action: ActionView::Close,
    }
}

/// One step of a connection. During the handshake every failure ends the
/// connection after a notice to the peer. After it, a message of unknown
/// type is passed over, any other failure of reading or writing ends the
/// connection and removes the session. A closed connection stays closed.
pub open spec fn step(
    store: StoreView,
    version: Seq<char>,
    phase: PhaseView,
    event: EventView,
    env: AmbientView,
) -> Step {
    match phase {
        PhaseView::AwaitingHello => match event {
            EventView::Received(m) => hello_step(store, m, env),
            EventView::Failed(e) => refuse(store, e, env),
            EventView::AuthTimeout => timed_out(store, env),
        },
        PhaseView::AwaitingAuth { client_id, server_nonce } => match event {
            EventView::Received(m) => auth_step(store, client_id, server_nonce, m, env),
            EventView::Failed(e) => refuse(store, e, env),
            EventView::AuthTimeout => timed_out(store, env),
        },
        PhaseView::Authenticated { session_id } => match event {
            EventView::Received(m) => command_step(store, version, session_id, m, env),
            EventView::Failed(e) => if e is InvalidMessageType {
                Step { store, phase, action: ActionView::Continue }
            } else {
                hang_up(store, session_id)
            },
            EventView::AuthTimeout => Step { store, phase, action: ActionView::Continue },
        },
        PhaseView::Closed => Step { store, phase, action: ActionView::Close },
    }
}

/// The server's handler of connections: the session store, the context of
/// the commands and the limits of a connection.
pub struct ConnectionHandler {
    session_manager: SessionManager,
    command_context: CommandContext,
    max_frame_size: u32,
    read_timeout_secs: u64,
    write_timeout_secs: u64,
    auth_timeout_secs: u64,
}

/// The mathematical content of a [`ConnectionHandler`].
pub struct HandlerView {
    pub store: StoreView,
    pub version: Seq<char>,
    pub max_frame_size: u32,
    pub read_timeout_secs: u64,
    pub write_timeout_secs: u64,
    pub auth_timeout_secs: u64,
}

impl View for ConnectionHandler {
    type V = HandlerView;

    closed spec fn view(&self) -> HandlerView {
        HandlerView {
            store: self.session_manager@,
            version: self.command_context.version@,
            max_frame_size: self.max_frame_size,
            read_timeout_secs: self.read_timeout_secs,
            write_timeout_secs: self.write_timeout_secs,
            auth_timeout_secs: self.auth_timeout_secs,
        }
    }
}

fn notice(text: String, ts: i64) -> (r: Message)
    ensures
        r@ == error_notice(text@, ts),
{
    Message::stamped("err", ts, MessagePayload::Error(ErrPayload { error: text, code: None }))
}

fn refusal(e: &ProtocolError, env: &Ambient) -> (r: (ConnectionPhase, ConnectionAction))
    ensures
        r.0@ == PhaseView::Closed,
        r.1@ == ActionView::Reject(
            error_notice("Authentication failed: "@ + error_text(e@), env.unix_time),
        ),
{
    let text = concat2("Authentication failed: ", e.to_text().as_str());
    (ConnectionPhase::Closed, ConnectionAction::Reject(notice(text, env.unix_time)))
}

fn failure_response(session_id: &str, seq: u64, text: String, ts: i64) -> (r: Message)
    ensures
        r@ == error_response(session_id@, seq, text@, ts),
{
    Message::stamped(
        "resp",
        ts,
        MessagePayload::Resp(
            RespPayload { status: String::from_str("error"), result: None, error: Some(text) },
        ),
    ).with_session(String::from_str(session_id), seq)
}

impl ConnectionHandler {
    /// The session store is well formed.
    pub closed spec fn wf(self) -> bool {
        self.session_manager.wf()
    }

    /// A handler over the given store, with the limits of a connection.
    pub fn new(
        session_manager: SessionManager,
        command_context: CommandContext,
        max_frame_size: u32,
        read_timeout_secs: u64,
        write_timeout_secs: u64,
        auth_timeout_secs: u64,
    ) -> (r: Self)
        requires
            session_manager.wf(),
        ensures
            r.wf(),
            r@ == (HandlerView {
                store: session_manager@,
                version: command_context.version@,
                max_frame_size,
                read_timeout_secs,
                write_timeout_secs,
                auth_timeout_secs,
            }),
    {
        Self {
            session_manager,
            command_context,
            max_frame_size,
            read_timeout_secs,
            write_timeout_secs,
            auth_timeout_secs,
        }
    }

    /// The largest payload of a frame that a connection accepts.
    pub fn max_frame_size(&self) -> (r: u32)
        ensures
            r == self@.max_frame_size,
    {
        self.max_frame_size
    }

    /// The time that a read may take, in seconds.
    pub fn read_timeout_secs(&self) -> (r: u64)
        ensures
            r == self@.read_timeout_secs,
    {
        self.read_timeout_secs
    }

    /// The time that a write may take, in seconds.
    pub fn write_timeout_secs(&self) -> (r: u64)
        ensures
            r == self@.write_timeout_secs,
    {
        self.write_timeout_secs
    }

    /// The time that the whole handshake may take, in seconds.
    pub fn auth_timeout_secs(&self) -> (r: u64)
        ensures
            r == self@.auth_timeout_secs,
    {
        self.auth_timeout_secs
    }

    /// The state of a connection that was just accepted.
    pub fn accept(&self) -> (r: ConnectionPhase)
        ensures
            r@ == PhaseView::AwaitingHello,
    {
        ConnectionPhase::AwaitingHello
    }

    /// Reads the clocks and draws a fresh nonce.
    pub fn ambient(&self) -> (r: Ambient)
        ensures
            r.nonce@.len() == 32,
            is_lower_hex(r.nonce@),
    {
        let (unix_time, iso8601) = wall_clock();
        Ambient {
            unix_time,
            iso8601,
            clock: self.session_manager.clock(),
            uptime_secs: elapsed_since(&self.command_context.server_start_time).0,
            nonce: generate_nonce(),
        }
    }

    /// A step of the handshake, in either of its two phases.
    fn authenticate(&mut self, phase: ConnectionPhase, m: Message, env: Ambient) -> (r: (
        ConnectionPhase,
        ConnectionAction,
    ))
        requires
            old(self).wf(),
            phase is AwaitingHello || phase is AwaitingAuth,
        ensures
            final(self).wf(),
            final(self)@ == (HandlerView {
                store: step(
                    old(self)@.store,
                    old(self)@.version,
                    phase@,
                    EventView::Received(m@),
                    env@,
                ).store,
                ..old(self)@
            }),
            r.0@ == step(
                old(self)@.store,
                old(self)@.version,
                phase@,
                EventView::Received(m@),
                env@,
            ).phase,
            r.1@ == step(
                old(self)@.store,
                old(self)@.version,
                phase@,
                EventView::Received(m@),
                env@,
            ).action,
    {
        match phase {
            ConnectionPhase::AwaitingHello => {
                if !str_equal(m.msg_type.as_str(), "hello") {
                    return refusal(&ProtocolError::InvalidMessageType(m.msg_type), &env);
                }
                let client_id = match m.payload {
                    MessagePayload::Hello(p) => p.client_id,
                    _ => {
                        return refusal(
                            &ProtocolError::InvalidMessageType(String::from_str("expected hello")),
                            &env,
                        );
                    },
                };
                match self.session_manager.validate_client_id(client_id.as_str()) {
                    Err(e) => {
                        return refusal(&e, &env);
                    },
                    Ok(_) => {},
                }
                let challenge = Message::stamped(
                    "challenge",
                    env.unix_time,
                    MessagePayload::Challenge(
                        ChallengePayload { server_nonce: env.nonce.clone() },
                    ),
                );
                (
                    ConnectionPhase::AwaitingAuth { client_id, server_nonce: env.nonce },
                    ConnectionAction::Reply(challenge),
                )
            },
            ConnectionPhase::AwaitingAuth { client_id, server_nonce } => {
                if !str_equal(m.msg_type.as_str(), "auth") {
                    return refusal(&ProtocolError::InvalidMessageType(m.msg_type), &env);
                }
                match self.session_manager.validate_timestamp_at(m.ts, env.unix_time) {
                    Err(e) => {
                        return refusal(&e, &env);
                    },
                    Ok(_) => {},
                }
                let auth = match m.payload {
                    MessagePayload::Auth(p) => p,
                    _ => {
                        return refusal(
                            &ProtocolError::InvalidMessageType(String::from_str("expected auth")),
                            &env,
                        );
                    },
                };
                if !str_equal(auth.client_id.as_str(), client_id.as_str()) {
                    return refusal(
                        &ProtocolError::AuthFailed(String::from_str("client_id mismatch")),
                        &env,
                    );
                }
                if !str_equal(auth.server_nonce.as_str(), server_nonce.as_str()) {
                    return refusal(
                        &ProtocolError::AuthFailed(String::from_str("server_nonce mismatch")),
                        &env,
                    );
                }
                let mut key = String::from_str(client_id.as_str());
                key.append(":");
                key.append(server_nonce.as_str());
                key.append(":");
                key.append(auth.client_nonce.as_str());
                match self.session_manager.check_and_record_nonce_at(key, env.clock) {
                    Err(e) => {
                        return refusal(&e, &env);
                    },
                    Ok(_) => {},
                }
                match self.session_manager.validate_auth(
                    client_id.as_str(),
                    server_nonce.as_str(),
                    auth.client_nonce.as_str(),
                    auth.sig.as_str(),
                ) {
                    Err(e) => {
                        return refusal(&e, &env);
                    },
                    Ok(_) => {},
                }
                let session = self.session_manager.create_session_with(
                    env.nonce,
                    client_id,
                    server_nonce.as_str(),
                    auth.client_nonce.as_str(),
                    env.clock,
                );
                let auth_ok = Message::stamped(
                    "auth_ok",
                    env.unix_time,
                    MessagePayload::AuthOk(
                        AuthOkPayload { message: String::from_str("Authentication successful") },
                    ),
                ).with_session(session.session_id.clone(), 0);
                (
                    ConnectionPhase::Authenticated { session_id: session.session_id },
                    ConnectionAction::Reply(auth_ok),
                )
            },
            _ => (ConnectionPhase::Closed, ConnectionAction::Close),
        }
    }

    /// Checks a command and runs it where it passes; the answer, or the
    /// error of the check that failed.
    fn handle_cmd(&mut self, session_id: &str, m: Message, env: &Ambient) -> (r: Result<
        Message,
        ProtocolError,
    >)
        requires
            old(self).wf(),
        ensures
            final(self).wf(),
            final(self)@ == (HandlerView {
                store: check_command(old(self)@.store, session_id@, m@, env@).0,
                ..old(self)@
            }),
            match check_command(old(self)@.store, session_id@, m@, env@).1 {
                Ok(accepted) => r matches Ok(reply) && reply@ == (match command_result(
                    accepted.cmd,
                    accepted.args,
                    old(self)@.version,
                    env.unix_time,
                    env.iso8601@,
                    env.uptime_secs,
                ) {
                    Ok(value) => success_response(session_id@, accepted.seq, value, env.unix_time),
                    Err(text) => error_response(session_id@, accepted.seq, text, env.unix_time),
                }),
                Err(e) => r matches Err(x) && x@ == e,
            },
    {
        let seq_field = m.seq;
        let nonce_field = m.nonce;
        let ts = m.ts;
        let payload = match m.payload {
            MessagePayload::Cmd(p) => p,
            _ => {
                return Err(ProtocolError::InvalidMessageType(String::from_str("expected cmd")));
            },
        };
        let seq = match seq_field {
            Some(s) => s,
            None => {
                return Err(ProtocolError::InvalidMessageType(String::from_str("cmd missing seq")));
            },
        };
        let nonce = match nonce_field {
            Some(n) => n,
            None => {
                return Err(
                    ProtocolError::InvalidMessageType(String::from_str("cmd missing nonce")),
                );
            },
        };
        match self.session_manager.validate_timestamp_at(ts, env.unix_time) {
            Err(e) => {
                return Err(e);
            },
            Ok(_) => {},
        }
        match self.session_manager.validate_and_update_seq(session_id, seq) {
            Err(e) => {
                return Err(e);
            },
            Ok(_) => {},
        }
        let session = match self.session_manager.get_session(session_id) {
            Ok(s) => s,
            Err(e) => {
                return Err(e);
            },
        };
        if !verify_cmd_signature(
            session.session_key.as_slice(),
            session_id,
            seq,
            nonce.as_str(),
            payload.cmd.as_str(),
            &payload.args,
            payload.sig.as_str(),
        ) {
            return Err(ProtocolError::InvalidSignature);
        }
        let result = execute_command_at(
            payload.cmd.as_str(),
            &payload.args,
            &self.command_context,
            env.unix_time,
            env.iso8601.as_str(),
            env.uptime_secs,
        );
        let reply = match result {
            Ok(value) => Message::stamped(
                "resp",
                env.unix_time,
                MessagePayload::Resp(
                    RespPayload {
                        status: String::from_str("success"),
                        result: Some(value),
                        error: None,
                    },
                ),
            ).with_session(String::from_str(session_id), seq),
            Err(text) => failure_response(session_id, seq, text, env.unix_time),
        };
        Ok(reply)
    }

    /// A step of an authenticated connection on a message.
    fn handle_commands(&mut self, session_id: String, m: Message, env: Ambient) -> (r: (
        ConnectionPhase,
        ConnectionAction,
    ))
        requires
            old(self).wf(),
        ensures
            final(self).wf(),
            final(self)@ == (HandlerView {
                store: command_step(
                    old(self)@.store,
                    old(self)@.version,
                    session_id@,
                    m@,
                    env@,
                ).store,
                ..old(self)@
            }),
            r.0@ == command_step(
                old(self)@.store,
                old(self)@.version,
                session_id@,
                m@,
                env@,
            ).phase,
            r.1@ == command_step(
                old(self)@.store,
                old(self)@.version,
                session_id@,
                m@,
                env@,
            ).action,
    {
        if str_equal(m.msg_type.as_str(), "cmd") {
            let seq = match m.seq {
                Some(s) => s,
                None => 0,
            };
            let reply = match self.handle_cmd(session_id.as_str(), m, &env) {
                Ok(reply) => reply,
                Err(e) => failure_response(session_id.as_str(), seq, e.to_text(), env.unix_time),
            };
            (ConnectionPhase::Authenticated { session_id }, ConnectionAction::Reply(reply))
        } else if str_equal(m.msg_type.as_str(), "ping") {
            let pong = Message::stamped(
                "pong",
                env.unix_time,
                MessagePayload::Pong(PongPayload {  }),
            );
            (ConnectionPhase::Authenticated { session_id }, ConnectionAction::Reply(pong))
        } else {
            (ConnectionPhase::Authenticated { session_id }, ConnectionAction::Continue)
        }
    }

    /// One step of a connection for given readings of the clocks and a given
    /// fresh nonce: the next state of the connection and what to do.
    pub fn handle_at(&mut self, phase: ConnectionPhase, event: ConnectionEvent, env: Ambient) -> (r:
        (ConnectionPhase, ConnectionAction))
        requires
            old(self).wf(),
        ensures
            final(self).wf(),
            final(self)@ == (HandlerView {
                store: step(old(self)@.store, old(self)@.version, phase@, event@, env@).store,
                ..old(self)@
            }),
            r.0@ == step(old(self)@.store, old(self)@.version, phase@, event@, env@).phase,
            r.1@ == step(old(self)@.store, old(self)@.version, phase@, event@, env@).action,
    {
        match phase {
            ConnectionPhase::Closed => (ConnectionPhase::Closed, ConnectionAction::Close),
            ConnectionPhase::Authenticated { session_id } => match event {
                ConnectionEvent::Received(m) => self.handle_commands(session_id, m, env),
                ConnectionEvent::Failed(e) => match e {
                    ProtocolError::InvalidMessageType(_) => (
                        ConnectionPhase::Authenticated { session_id },
                        ConnectionAction::Continue,
                    ),
                    _ => {
                        self.session_manager.remove_session(session_id.as_str());
                        (ConnectionPhase::Closed, ConnectionAction::Close)
                    },
                },
                ConnectionEvent::AuthTimeout => (
                    ConnectionPhase::Authenticated { session_id },
                    ConnectionAction::Continue,
                ),
            },
            _ => match event {
                ConnectionEvent::Received(m) => self.authenticate(phase, m, env),
                ConnectionEvent::Failed(e) => refusal(&e, &env),
                ConnectionEvent::AuthTimeout => (
                    ConnectionPhase::Closed,
                    ConnectionAction::Reject(
                        notice(String::from_str("Authentication timeout"), env.unix_time),
                    ),
                ),
            },
        }
    }

    /// One step of a connection with the clocks as they read now and a
    /// nonce drawn for it.
    pub fn handle(&mut self, phase: ConnectionPhase, event: ConnectionEvent) -> (r: (
        ConnectionPhase,
        ConnectionAction,
    ))
        requires
            old(self).wf(),
        ensures
            final(self).wf(),
            exists|env: AmbientView|
                env.nonce.len() == 32 && is_lower_hex(env.nonce) && (#[trigger] step(
                    old(self)@.store,
                    old(self)@.version,
                    phase@,
                    event@,
                    env,
                )) == (Step { store: final(self)@.store, phase: r.0@, action: r.1@ })
                    && final(self)@ == (HandlerView { store: final(self)@.store, ..old(self)@ }),
    {
        let env = self.ambient();
        let ghost e = env@;
        let r = self.handle_at(phase, event, env);
        assert(step(old(self)@.store, old(self)@.version, phase@, event@, e) == (Step {
            store: self@.store,
            phase: r.0@,
            action: r.1@,
        }));
        r
    }
}

} // verus!
