//! Authenticated, session-oriented command protocol: wire framing, message
//! model, HMAC signing, session store and the handshake/command state
//! machines for both roles.

pub mod agreement;
pub mod client;
pub mod client_config;
pub mod clock;
pub mod commands;
pub mod crypto;
pub mod error;
pub mod framing;
pub mod handler;
pub mod hexcode;
pub mod json;
pub mod messages;
pub mod repl;
pub mod server_config;
pub mod session;
pub mod table;
pub mod text;
pub mod wire;

pub use crate::crypto::{
    compute_auth_signature, compute_cmd_signature, compute_hmac, constant_time_compare,
    derive_session_key, generate_nonce, verify_cmd_signature, verify_hmac,
};
pub use crate::error::ProtocolError;
pub use crate::framing::{
    read_frame, write_frame, JsonFrameCodec, DEFAULT_MAX_FRAME_SIZE, MAX_FRAME_SIZE,
};
pub use crate::json::JsonValue;
pub use crate::messages::{
    AuthOkPayload, AuthPayload, ChallengePayload, CmdPayload, ErrPayload, HelloPayload, Message,
    MessagePayload, PingPayload, PongPayload, RespPayload,
};
