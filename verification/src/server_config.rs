//! The configuration of a server and its defaults.

use crate::framing::DEFAULT_MAX_FRAME_SIZE;
use crate::hexcode::{decode_hex, hex_bytes, is_hex_text};
use vstd::prelude::*;
use vstd::string::*;

verus! {

/// Everything a server is configured with.
#[derive(Debug, Clone)]
pub struct ServerConfig {
    pub server: ServerSettings,
    pub security: SecuritySettings,
    pub limits: LimitsSettings,
    pub logging: LoggingSettings,
}

/// Where the server listens.
#[derive(Debug, Clone)]
pub struct ServerSettings {
    pub listen_addr: String,
    pub listen_port: u16,
}

/// What the handshake is checked against.
#[derive(Debug, Clone)]
pub struct SecuritySettings {
    /// The pre-shared key in hexadecimal.
    pub psk: String,
    /// The client ids that may connect; every client may where it is empty.
    pub allowed_client_ids: Vec<String>,
    /// The tolerated timestamp skew in seconds.
    pub timestamp_skew_secs: i64,
    /// How long a handshake nonce is remembered, in seconds.
    pub nonce_ttl_secs: u64,
}

/// The limits of the server and of each connection.
#[derive(Debug, Clone)]
pub struct LimitsSettings {
    /// The largest number of connections served at once.
    pub max_conns: usize,
    /// The largest payload of a frame in bytes.
    pub max_frame_bytes: u32,
    pub read_timeout_secs: u64,
    pub write_timeout_secs: u64,
    /// The time that a handshake may take, in seconds.
    pub auth_timeout_secs: u64,
}

/// How the server logs.
#[derive(Debug, Clone)]
pub struct LoggingSettings {
    /// One of trace, debug, info, warn, error.
    pub log_level: String,
    /// Whether log lines are JSON.
    pub json_logs: bool,
}

/// Two minutes either way.
pub fn default_timestamp_skew() -> (r: i64)
    ensures
        r == 120,
{
    120
}

/// Five minutes.
pub fn default_nonce_ttl() -> (r: u64)
    ensures
        r == 300,
{
    300
}

/// A hundred connections at once.
pub fn default_max_conns() -> (r: usize)
    ensures
        r == 100,
{
    100
}

/// The frame limit of most deployments.
pub fn default_max_frame() -> (r: u32)
    ensures
        r == DEFAULT_MAX_FRAME_SIZE,
{
    DEFAULT_MAX_FRAME_SIZE
}

/// Thirty seconds.
pub fn default_read_timeout() -> (r: u64)
    ensures
        r == 30,
{
    30
}

/// Thirty seconds.
pub fn default_write_timeout() -> (r: u64)
    ensures
        r == 30,
{
    30
}

/// One minute.
pub fn default_auth_timeout() -> (r: u64)
    ensures
        r == 60,
{
    60
}

/// `info`.
pub fn default_log_level() -> (r: String)
    ensures
        r@ == "info"@,
{
    String::from_str("info")
}

/// The places where a server looks for its configuration, in order.
pub fn config_paths() -> (r: Vec<&'static str>)
    ensures
        r@.len() == 3,
        r@[0]@ == "/etc/c2/config.toml"@,
        r@[1]@ == "configs/server.toml"@,
        r@[2]@ == "server.toml"@,
{
    let mut paths: Vec<&'static str> = Vec::new();
    paths.push("/etc/c2/config.toml");
    paths.push("configs/server.toml");
    paths.push("server.toml");
    paths
}

impl SecuritySettings {
    /// The pre-shared key as bytes; `None` where the text is no hexadecimal.
    pub fn psk_bytes(&self) -> (r: Option<Vec<u8>>)
        ensures
            r is Some <==> is_hex_text(self.psk@),
            r matches Some(v) ==> v@ == hex_bytes(self.psk@),
    {
        decode_hex(self.psk.as_str())
    }
}

/// Whether a pre-shared key is shorter than the 32 bytes recommended.
pub fn psk_is_short(psk: &[u8]) -> (r: bool)
    ensures
        r == (psk@.len() < 32),
{
    psk.len() < 32
}

/// The configuration of a server that was given none: it listens on the
/// loopback address, admits every client and carries a key that must be
/// changed.
pub open spec fn is_default_config(c: ServerConfig) -> bool {
    &&& c.server.listen_addr@ == "127.0.0.1"@
    &&& c.server.listen_port == 5000
    &&& c.security.psk@ == "change-me-in-production"@
    &&& c.security.allowed_client_ids@.len() == 0
    &&& c.security.timestamp_skew_secs == 120
    &&& c.security.nonce_ttl_secs == 300
    &&& c.limits.max_conns == 100
    &&& c.limits.max_frame_bytes == DEFAULT_MAX_FRAME_SIZE
    &&& c.limits.read_timeout_secs == 30
    &&& c.limits.write_timeout_secs == 30
    &&& c.limits.auth_timeout_secs == 60
    &&& c.logging.log_level@ == "info"@
    &&& !c.logging.json_logs
}

impl ServerConfig {
    /// The configuration of a server that was given none.
    pub fn default_config() -> (r: Self)
        ensures
            is_default_config(r),
    {
        Self {
            server: ServerSettings {
                listen_addr: String::from_str("127.0.0.1"),
                listen_port: 5000,
            },
            security: SecuritySettings {
                psk: String::from_str("change-me-in-production"),
                allowed_client_ids: Vec::new(),
                timestamp_skew_secs: default_timestamp_skew(),
                nonce_ttl_secs: default_nonce_ttl(),
            },
            limits: LimitsSettings {
                max_conns: default_max_conns(),
                max_frame_bytes: default_max_frame(),
                read_timeout_secs: default_read_timeout(),
                write_timeout_secs: default_write_timeout(),
                auth_timeout_secs: default_auth_timeout(),
            },
            logging: LoggingSettings { log_level: default_log_level(), json_logs: false },
        }
    }
}

/// Picks the configuration of a server: the first candidate that could be
/// loaded, in the order of [`config_paths`], and the default where none
/// could. Also says which candidate was taken.
pub fn load_config(candidates: Vec<Option<ServerConfig>>) -> (r: (ServerConfig, Option<usize>))
    ensures
        match r.1 {
            Some(i) => i < candidates@.len() && candidates@[i as int] == Some(r.0) && forall|j: int|
                0 <= j < i ==> (#[trigger] candidates@[j]) is None,
            None => forall|j: int| 0 <= j < candidates@.len() ==> (#[trigger] candidates@[j]) is None,
        },
        r.1 is None ==> is_default_config(r.0),
{
    let mut candidates = candidates;
    let ghost all = candidates@;
    let total = candidates.len();
    let mut taken: Option<(ServerConfig, usize)> = None;
    while candidates.len() > 0
        invariant
            total == all.len(),
            candidates@.len() <= total,
            candidates@ == all.subrange(0, candidates@.len() as int),
            match taken {
                Some((c, i)) => candidates@.len() <= i < total && all[i as int] == Some(c)
                    && forall|j: int| candidates@.len() <= j < i ==> (#[trigger] all[j]) is None,
                None => forall|j: int| candidates@.len() <= j < total ==> (#[trigger] all[j]) is None,
            },
        decreases candidates@.len(),
    {
        let ghost n = candidates@.len() as int;
        let last = candidates.pop().unwrap();
        assert(last == all[n - 1]);
        match last {
            Some(c) => {
                taken = Some((c, candidates.len()));
            },
            None => {},
        }
    }
    match taken {
        Some((c, i)) => (c, Some(i)),
        None => (ServerConfig::default_config(), None),
    }
}

} // verus!
