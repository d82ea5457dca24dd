//! The configuration of a client and its defaults.

use crate::hexcode::{decode_hex, hex_bytes, is_hex_text};
use vstd::prelude::*;
use vstd::string::*;

verus! {

/// Everything a client is configured with.
#[derive(Debug, Clone)]
pub struct ClientConfig {
    pub client: ClientSettings,
    pub security: SecuritySettings,
    pub timeouts: TimeoutSettings,
}

/// Who the client is and where it connects.
#[derive(Debug, Clone)]
pub struct ClientSettings {
    pub client_id: String,
    pub relay_addr: String,
    pub relay_port: u16,
}

/// What the client proves itself with.
#[derive(Debug, Clone)]
pub struct SecuritySettings {
    /// The pre-shared key in hexadecimal.
    pub psk: String,
}

/// How long connecting, a read and a write may take, in seconds.
#[derive(Debug, Clone)]
pub struct TimeoutSettings {
    pub connect_timeout_secs: u64,
    pub read_timeout_secs: u64,
    pub write_timeout_secs: u64,
}

/// Ten seconds.
pub fn default_connect_timeout() -> (r: u64)
    ensures
        r == 10,
{
    10
}

/// Thirty seconds.
pub fn default_read_timeout() -> (r: u64)
    ensures
        r == 30,
{
    30
}

/// Thirty seconds.
pub fn default_write_timeout() -> (r: u64)
    ensures
        r == 30,
{
    30
}

/// The places where a client looks for its configuration, in order.
pub fn config_paths() -> (r: Vec<&'static str>)
    ensures
        r@.len() == 2,
        r@[0]@ == "configs/client.toml"@,
        r@[1]@ == "client.toml"@,
{
    let mut paths: Vec<&'static str> = Vec::new();
    paths.push("configs/client.toml");
    paths.push("client.toml");
    paths
}

impl SecuritySettings {
    /// The pre-shared key as bytes; `None` where the text is no hexadecimal.
    pub fn psk_bytes(&self) -> (r: Option<Vec<u8>>)
        ensures
            r is Some <==> is_hex_text(self.psk@),
            r matches Some(v) ==> v@ == hex_bytes(self.psk@),
    {
        decode_hex(self.psk.as_str())
    }
}

/// The configuration of a client that was given none.
pub open spec fn is_default_config(c: ClientConfig) -> bool {
    &&& c.client.client_id@ == "client-1"@
    &&& c.client.relay_addr@ == "127.0.0.1"@
    &&& c.client.relay_port == 4000
    &&& c.security.psk@ == "change-me-in-production"@
    &&& c.timeouts.connect_timeout_secs == 10
    &&& c.timeouts.read_timeout_secs == 30
    &&& c.timeouts.write_timeout_secs == 30
}

impl ClientConfig {
    /// The configuration of a client that was given none.
    pub fn default_config() -> (r: Self)
        ensures
            is_default_config(r),
    {
        Self {
            client: ClientSettings {
                client_id: String::from_str("client-1"),
                relay_addr: String::from_str("127.0.0.1"),
                relay_port: 4000,
            },
            security: SecuritySettings { psk: String::from_str("change-me-in-production") },
            timeouts: TimeoutSettings {
                connect_timeout_secs: default_connect_timeout(),
                read_timeout_secs: default_read_timeout(),
                write_timeout_secs: default_write_timeout(),
            },
        }
    }
}

/// Picks the configuration of a client: the first candidate that could be
/// loaded, in the order of [`config_paths`], and the default where none
/// could. Also says which candidate was taken.
pub fn load_config(candidates: Vec<Option<ClientConfig>>) -> (r: (ClientConfig, Option<usize>))
    ensures
        match r.1 {
            Some(i) => i < candidates@.len() && candidates@[i as int] == Some(r.0) && forall|j: int|
                0 <= j < i ==> (#[trigger] candidates@[j]) is None,
            None => forall|j: int| 0 <= j < candidates@.len() ==> (#[trigger] candidates@[j]) is None,
        },
        r.1 is None ==> is_default_config(r.0),
{
    let mut candidates = candidates;
    let ghost all = candidates@;
    let total = candidates.len();
    let mut taken: Option<(ClientConfig, usize)> = None;
    while candidates.len() > 0
        invariant
            total == all.len(),
            candidates@.len() <= total,
            candidates@ == all.subrange(0, candidates@.len() as int),
            match taken {
                Some((c, i)) => candidates@.len() <= i < total && all[i as int] == Some(c)
                    && forall|j: int| candidates@.len() <= j < i ==> (#[trigger] all[j]) is None,
                None => forall|j: int| candidates@.len() <= j < total ==> (#[trigger] all[j]) is None,
            },
        decreases candidates@.len(),
    {
        let ghost n = candidates@.len() as int;
        let last = candidates.pop().unwrap();
        assert(last == all[n - 1]);
        match last {
            Some(c) => {
                taken = Some((c, candidates.len()));
            },
            None => {},
        }
    }
    match taken {
        Some((c, i)) => (c, Some(i)),
        None => (ClientConfig::default_config(), None),
    }
}

} // verus!
