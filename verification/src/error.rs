//! The errors of the protocol and their messages.

use crate::text::{concat2, decimal, i64_to_string, signed_decimal, u64_to_string};
use vstd::prelude::*;
use vstd::string::*;

verus! {

/// What can go wrong on a connection.
#[derive(Debug, Clone, PartialEq, Eq)]
pub enum ProtocolError {
    /// Transport failure, a timeout included; holds the transport's message.
    Io(String),
    /// The payload of a frame is no well-formed message; holds the reason.
    Json(String),
    /// A frame declares more bytes than the limit: declared length, limit.
    FrameTooLarge(u32, u32),
    /// A message of the wrong kind or shape for the current state.
    InvalidMessageType(String),
    /// The handshake was refused.
    AuthFailed(String),
    /// A handshake nonce was used before.
    ReplayDetected,
    /// A sequence number that does not exceed the last accepted one: last
    /// accepted, received.
    SequenceViolation(u64, u64),
    /// A timestamp further from the present than the tolerated skew.
    TimestampOutOfBounds(i64),
    /// A signature that does not match.
    InvalidSignature,
    /// No session has the given id.
    SessionNotFound(String),
}

/// The mathematical content of a [`ProtocolError`].
pub enum ErrorView {
    Io(Seq<char>),
    Json(Seq<char>),
    FrameTooLarge(u32, u32),
    InvalidMessageType(Seq<char>),
    AuthFailed(Seq<char>),
    ReplayDetected,
    SequenceViolation(u64, u64),
    TimestampOutOfBounds(i64),
    InvalidSignature,
    SessionNotFound(Seq<char>),
}

impl View for ProtocolError {
    type V = ErrorView;

    open spec fn view(&self) -> ErrorView {
        match self {
            ProtocolError::Io(m) => ErrorView::Io(m@),
            ProtocolError::Json(m) => ErrorView::Json(m@),
            ProtocolError::FrameTooLarge(l, m) => ErrorView::FrameTooLarge(*l, *m),
            ProtocolError::InvalidMessageType(m) => ErrorView::InvalidMessageType(m@),
            ProtocolError::AuthFailed(m) => ErrorView::AuthFailed(m@),
            ProtocolError::ReplayDetected => ErrorView::ReplayDetected,
            ProtocolError::SequenceViolation(e, g) => ErrorView::SequenceViolation(*e, *g),
            ProtocolError::TimestampOutOfBounds(t) => ErrorView::TimestampOutOfBounds(*t),
            ProtocolError::InvalidSignature => ErrorView::InvalidSignature,
            ProtocolError::SessionNotFound(m) => ErrorView::SessionNotFound(m@),
        }
    }
}

/// The content of an outcome: the value as it is, the error by its content.
pub open spec fn outcome<T>(r: Result<T, ProtocolError>) -> Result<T, ErrorView> {
    match r {
        Ok(v) => Ok(v),
        Err(e) => Err(e@),
    }
}

/// The message that describes an error to a peer or an operator.
pub open spec fn error_text(e: ErrorView) -> Seq<char> {
    match e {
        ErrorView::Io(m) => "IO error: "@ + m,
        ErrorView::Json(m) => "JSON serialization error: "@ + m,
        ErrorView::FrameTooLarge(l, m) => "Frame too large: "@ + decimal(l as nat) + " bytes (max: "@
            + decimal(m as nat) + ")"@,
        ErrorView::InvalidMessageType(m) => "Invalid message type: "@ + m,
        ErrorView::AuthFailed(m) => "Authentication failed: "@ + m,
        ErrorView::ReplayDetected => "Replay attack detected"@,
        ErrorView::SequenceViolation(e, g) => "Sequence number violation: expected > "@ + decimal(
            e as nat,
        ) + ", got "@ + decimal(g as nat),
        ErrorView::TimestampOutOfBounds(t) => "Timestamp out of bounds: "@ + signed_decimal(
            t as int,
        ),
        ErrorView::InvalidSignature => "Invalid signature"@,
        ErrorView::SessionNotFound(m) => "Session not found: "@ + m,
    }
}

impl ProtocolError {
    /// The message that describes this error.
    pub fn to_text(&self) -> (r: String)
        ensures
            r@ == error_text(self@),
    {
        match self {
            ProtocolError::Io(m) => concat2("IO error: ", m.as_str()),
            ProtocolError::Json(m) => concat2("JSON serialization error: ", m.as_str()),
            ProtocolError::FrameTooLarge(l, m) => {
                let mut s = String::from_str("Frame too large: ");
                s.append(u64_to_string(*l as u64).as_str());
                s.append(" bytes (max: ");
                s.append(u64_to_string(*m as u64).as_str());
                s.append(")");
                s
            },
            ProtocolError::InvalidMessageType(m) => concat2("Invalid message type: ", m.as_str()),
            ProtocolError::AuthFailed(m) => concat2("Authentication failed: ", m.as_str()),
            ProtocolError::ReplayDetected => String::from_str("Replay attack detected"),
            ProtocolError::SequenceViolation(e, g) => {
                let mut s = String::from_str("Sequence number violation: expected > ");
                s.append(u64_to_string(*e).as_str());
                s.append(", got ");
                s.append(u64_to_string(*g).as_str());
                s
            },
            ProtocolError::TimestampOutOfBounds(t) => concat2(
                "Timestamp out of bounds: ",
                i64_to_string(*t).as_str(),
            ),
            ProtocolError::InvalidSignature => String::from_str("Invalid signature"),
            ProtocolError::SessionNotFound(m) => concat2("Session not found: ", m.as_str()),
        }
    }
}

} // verus!
