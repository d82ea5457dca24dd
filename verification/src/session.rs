//! The session store: the sessions of authenticated clients, each with its
//! key and its sequence cursor, and the ledger of handshake nonces that
//! detects replays. Every operation that changes the store takes it
//! exclusively, so check and update are never split.

use crate::clock::{elapsed_since, instant_now, unix_now};
use crate::crypto::{
    auth_signature, compute_auth_signature, constant_time_compare, derive_session_key,
    generate_nonce, session_key,
};
use crate::error::{outcome, ErrorView, ProtocolError};
use crate::hexcode::is_lower_hex;
use crate::table::{kept_part, Keep, Table};
use crate::text::str_equal;
use vstd::prelude::*;
use vstd::slice::*;
use vstd::string::*;

verus! {

/// An authenticated session.
#[derive(Debug, Clone)]
pub struct Session {
    pub session_id: String,
    pub client_id: String,
    pub session_key: Vec<u8>,
    /// The last sequence number that was accepted; 0 before the first.
    pub last_seq: u64,
    /// When the session was made, in nanoseconds on the store's clock.
    pub created_at: u128,
}

/// The mathematical content of a [`Session`].
pub struct SessionView {
    pub session_id: Seq<char>,
    pub client_id: Seq<char>,
    pub session_key: Seq<u8>,
    pub last_seq: u64,
    pub created_at: u128,
}

impl View for Session {
    type V = SessionView;

    open spec fn view(&self) -> SessionView {
        SessionView {
            session_id: self.session_id@,
            client_id: self.client_id@,
            session_key: self.session_key@,
            last_seq: self.last_seq,
            created_at: self.created_at,
        }
    }
}

impl Session {
    /// A copy of this session.
    pub fn duplicate(&self) -> (r: Session)
        ensures
            r@ == self@,
    {
        Session {
            session_id: self.session_id.clone(),
            client_id: self.client_id.clone(),
            session_key: slice_to_vec(self.session_key.as_slice()),
            last_seq: self.last_seq,
            created_at: self.created_at,
        }
    }
}

/// Nanoseconds in a second.
pub const NANOS_PER_SEC: u128 = 1_000_000_000;

/// The age at `now` of an entry recorded at `recorded`; an entry from the
/// future has age zero.
pub open spec fn age(recorded: u128, now: u128) -> int {
    if now >= recorded {
        now - recorded
    } else {
        0
    }
}

/// An entry is fresh while its age is below the time to live.
pub open spec fn is_fresh(recorded: u128, now: u128, ttl: u128) -> bool {
    age(recorded, now) < ttl
}

/// The ledger without the entries that have expired at `now`.
pub open spec fn evict(ledger: Map<Seq<char>, u128>, now: u128, ttl: u128) -> Map<
    Seq<char>,
    u128,
> {
    Map::new(
        |k: Seq<char>| ledger.contains_key(k) && is_fresh(ledger[k], now, ttl),
        |k: Seq<char>| ledger[k],
    )
}

/// Whether `key` is a replay at `now`: it is in the ledger and has not
/// expired.
pub open spec fn is_replay(ledger: Map<Seq<char>, u128>, key: Seq<char>, now: u128, ttl: u128) -> bool {
    ledger.contains_key(key) && is_fresh(ledger[key], now, ttl)
}

/// The ledger after `key` was checked at `now`: expired entries are gone,
/// and the key is recorded with `now` unless it was a replay.
pub open spec fn recorded(ledger: Map<Seq<char>, u128>, key: Seq<char>, now: u128, ttl: u128) -> Map<
    Seq<char>,
    u128,
> {
    if is_replay(ledger, key, now, ttl) {
        evict(ledger, now, ttl)
    } else {
        evict(ledger, now, ttl).insert(key, now)
    }
}

/// The outcome of checking `key` at `now`.
pub open spec fn record_outcome(ledger: Map<Seq<char>, u128>, key: Seq<char>, now: u128, ttl: u128) -> Result<
    (),
    ErrorView,
> {
    if is_replay(ledger, key, now, ttl) {
        Err(ErrorView::ReplayDetected)
    } else {
        Ok(())
    }
}

/// A first check of a key that is not in the ledger succeeds. A second check
/// of the same key is a replay for as long as the first has not expired, and
/// succeeds again from the moment it has.
pub proof fn lemma_replay_window(
    ledger: Map<Seq<char>, u128>,
    key: Seq<char>,
    first: u128,
    second: u128,
    ttl: u128,
)
    requires
        first <= second,
        !is_replay(ledger, key, first, ttl),
    ensures
        record_outcome(ledger, key, first, ttl) == Ok::<(), ErrorView>(()),
        second - first < ttl ==> record_outcome(recorded(ledger, key, first, ttl), key, second, ttl)
            == Err::<(), ErrorView>(ErrorView::ReplayDetected),
        second - first >= ttl ==> record_outcome(recorded(ledger, key, first, ttl), key, second, ttl)
            == Ok::<(), ErrorView>(()),
{
}

/// The rule that keeps the entries which are fresh at `now`.
pub struct Freshness {
    pub now: u128,
    pub ttl: u128,
}

impl Keep<u128> for Freshness {
    open spec fn keeps(&self, v: u128) -> bool {
        is_fresh(v, self.now, self.ttl)
    }

    fn keep(&self, v: &u128) -> (r: bool) {
        let elapsed: u128 = if self.now >= *v {
            self.now - *v
        } else {
            0
        };
        elapsed < self.ttl
    }
}

/// The ledger of handshake nonces: each key with the time at which it was
/// recorded.
pub struct NonceCache {
    nonces: Table<u128>,
    ttl: u128,
}

impl NonceCache {
    /// The recorded keys with their times.
    pub closed spec fn entries(self) -> Map<Seq<char>, u128> {
        self.nonces.map()
    }

    /// The time to live of an entry, in nanoseconds.
    pub closed spec fn ttl(self) -> u128 {
        self.ttl
    }

    /// No key is recorded twice.
    pub closed spec fn wf(self) -> bool {
        self.nonces.wf()
    }

    /// An empty ledger whose entries live for `ttl_secs` seconds.
    pub fn new(ttl_secs: u64) -> (r: Self)
        ensures
            r.wf(),
            r.entries() == Map::<Seq<char>, u128>::empty(),
            r.ttl() == ttl_secs * NANOS_PER_SEC,
    {
        NonceCache { nonces: Table::new(), ttl: ttl_secs as u128 * NANOS_PER_SEC }
    }

    /// Drops the entries that have expired at `now`.
    pub fn cleanup(&mut self, now: u128)
        requires
            old(self).wf(),
        ensures
            final(self).wf(),
            final(self).ttl() == old(self).ttl(),
            final(self).entries() == evict(old(self).entries(), now, old(self).ttl()),
    {
        let rule = Freshness { now, ttl: self.ttl };
        self.nonces.retain(&rule);
        assert(kept_part::<u128, Freshness, u128>(old(self).nonces.map(), rule) =~= evict(
            old(self).entries(),
            now,
            old(self).ttl(),
        ));
    }

    /// Drops expired entries, then records `key` with `now`, or reports a
    /// replay where the key is still there.
    pub fn check_and_record(&mut self, key: String, now: u128) -> (r: Result<(), ProtocolError>)
        requires
            old(self).wf(),
        ensures
            final(self).wf(),
            final(self).ttl() == old(self).ttl(),
            final(self).entries() == recorded(old(self).entries(), key@, now, old(self).ttl()),
            outcome(r) == record_outcome(old(self).entries(), key@, now, old(self).ttl()),
    {
        self.cleanup(now);
        if self.nonces.contains_key(key.as_str()) {
            return Err(ProtocolError::ReplayDetected);
        }
        self.nonces.insert(key, now);
        Ok(())
    }
}

/// The mathematical content of a [`SessionManager`].
pub struct StoreView {
    /// The sessions by id.
    pub sessions: Map<Seq<char>, SessionView>,
    /// The nonce ledger: each key with the time at which it was recorded.
    pub ledger: Map<Seq<char>, u128>,
    /// The time to live of a ledger entry, in nanoseconds.
    pub ttl: u128,
    /// The pre-shared key.
    pub psk: Seq<u8>,
    /// The client ids that may connect; `None` where every client may.
    pub allowed: Option<Seq<Seq<char>>>,
    /// The tolerated timestamp skew in seconds.
    pub skew: i64,
}

/// Whether a timestamp is within `skew` seconds of `now`.
pub open spec fn timestamp_in_bounds(ts: i64, now: i64, skew: i64) -> bool {
    if now >= ts {
        now - ts <= skew
    } else {
        ts - now <= skew
    }
}

/// The outcome of holding a timestamp against the clock.
pub open spec fn timestamp_outcome(ts: i64, now: i64, skew: i64) -> Result<(), ErrorView> {
    if timestamp_in_bounds(ts, now, skew) {
        Ok(())
    } else {
        Err(ErrorView::TimestampOutOfBounds(ts))
    }
}

/// Whether a client id is admitted by an allowlist.
pub open spec fn client_allowed(allowed: Option<Seq<Seq<char>>>, client_id: Seq<char>) -> bool {
    match allowed {
        Some(list) => list.contains(client_id),
        None => true,
    }
}

/// The outcome of holding a client id against the allowlist.
pub open spec fn client_outcome(allowed: Option<Seq<Seq<char>>>, client_id: Seq<char>) -> Result<
    (),
    ErrorView,
> {
    if client_allowed(allowed, client_id) {
        Ok(())
    } else {
        Err(ErrorView::AuthFailed("client not allowed"@))
    }
}

/// The outcome of checking a handshake signature.
pub open spec fn auth_outcome(
    psk: Seq<u8>,
    client_id: Seq<char>,
    server_nonce: Seq<char>,
    client_nonce: Seq<char>,
    sig: Seq<char>,
) -> Result<(), ErrorView> {
    if sig == auth_signature(psk, client_id, server_nonce, client_nonce) {
        Ok(())
    } else {
        Err(ErrorView::InvalidSignature)
    }
}

/// A new session: the key derived from id and nonces, the cursor at 0.
pub open spec fn new_session(
    psk: Seq<u8>,
    session_id: Seq<char>,
    client_id: Seq<char>,
    server_nonce: Seq<char>,
    client_nonce: Seq<char>,
    now: u128,
) -> SessionView {
    SessionView {
        session_id,
        client_id,
        session_key: session_key(psk, session_id, server_nonce, client_nonce),
        last_seq: 0,
        created_at: now,
    }
}

/// The outcome of offering a sequence number to a session: accepted only
/// where it exceeds the last accepted one.
pub open spec fn seq_outcome(sessions: Map<Seq<char>, SessionView>, id: Seq<char>, seq: u64) -> Result<
    (),
    ErrorView,
> {
    if !sessions.contains_key(id) {
        Err(ErrorView::SessionNotFound(id))
    } else if seq <= sessions[id].last_seq {
        Err(ErrorView::SequenceViolation(sessions[id].last_seq, seq))
    } else {
        Ok(())
    }
}

/// The sessions after a sequence number was offered: the cursor of the
/// session moves to an accepted number and nothing else changes.
pub open spec fn seq_advanced(sessions: Map<Seq<char>, SessionView>, id: Seq<char>, seq: u64) -> Map<
    Seq<char>,
    SessionView,
> {
    if seq_outcome(sessions, id, seq) is Ok {
        sessions.insert(id, SessionView { last_seq: seq, ..sessions[id] })
    } else {
        sessions
    }
}

/// Once a sequence number was accepted, no number up to it is accepted
/// again, in whatever order the later offers arrive, and every number above
/// it is. The cursor never moves back.
pub proof fn lemma_sequence_monotonic(
    sessions: Map<Seq<char>, SessionView>,
    id: Seq<char>,
    first: u64,
    second: u64,
)
    requires
        seq_outcome(sessions, id, first) is Ok,
    ensures
        seq_advanced(sessions, id, first)[id].last_seq == first,
        first > sessions[id].last_seq,
        second <= first ==> seq_outcome(seq_advanced(sessions, id, first), id, second)
            == Err::<(), ErrorView>(ErrorView::SequenceViolation(first, second)),
        second > first ==> seq_outcome(seq_advanced(sessions, id, first), id, second) is Ok,
{
}

/// Whatever is offered, the cursor of a session does not decrease and the
/// set of sessions stays.
pub proof fn lemma_cursor_never_decreases(
    sessions: Map<Seq<char>, SessionView>,
    id: Seq<char>,
    seq: u64,
    other: Seq<char>,
)
    requires
        sessions.contains_key(other),
    ensures
        seq_advanced(sessions, id, seq).contains_key(other),
        seq_advanced(sessions, id, seq)[other].last_seq >= sessions[other].last_seq,
        seq_advanced(sessions, id, seq)[other].session_key == sessions[other].session_key,
{
}

/// Holds a timestamp against a reading of the clock.
pub fn check_timestamp(ts: i64, now: i64, skew: i64) -> (r: Result<(), ProtocolError>)
    ensures
        outcome(r) == timestamp_outcome(ts, now, skew),
{
    let diff: i128 = if now >= ts {
        now as i128 - ts as i128
    } else {
        ts as i128 - now as i128
    };
    if diff > skew as i128 {
        Err(ProtocolError::TimestampOutOfBounds(ts))
    } else {
        Ok(())
    }
}

/// The server's registry of sessions and nonces, with the configuration
/// that its checks need.
pub struct SessionManager {
    sessions: Table<Session>,
    nonce_cache: NonceCache,
    psk: Vec<u8>,
    allowed_clients: Option<Vec<String>>,
    timestamp_skew: i64,
    started: std::time::Instant,
}

/// The characters of each string of a list.
pub open spec fn texts(list: Seq<String>) -> Seq<Seq<char>> {
    Seq::new(list.len(), |i: int| list[i]@)
}

impl View for SessionManager {
    type V = StoreView;

    closed spec fn view(&self) -> StoreView {
        StoreView {
            sessions: self.sessions.map(),
            ledger: self.nonce_cache.entries(),
            ttl: self.nonce_cache.ttl(),
            psk: self.psk@,
            allowed: match self.allowed_clients {
                Some(list) => Some(texts(list@)),
                None => None,
            },
            skew: self.timestamp_skew,
        }
    }
}

impl SessionManager {
    /// No session id and no nonce key is stored twice.
    pub closed spec fn wf(self) -> bool {
        &&& self.sessions.wf()
        &&& self.nonce_cache.wf()
    }

    /// An empty store. An empty allowlist admits every client.
    pub fn new(
        psk: Vec<u8>,
        allowed_clients: Vec<String>,
        timestamp_skew_secs: i64,
        nonce_ttl_secs: u64,
    ) -> (r: Self)
        ensures
            r.wf(),
            r@ == (StoreView {
                sessions: Map::empty(),
                ledger: Map::empty(),
                ttl: (nonce_ttl_secs * NANOS_PER_SEC) as u128,
                psk: psk@,
                allowed: if allowed_clients@.len() == 0 {
                    None
                } else {
                    Some(texts(allowed_clients@))
                },
                skew: timestamp_skew_secs,
            }),
    {
        let allowed = if allowed_clients.len() == 0 {
            None
        } else {
            Some(allowed_clients)
        };
        SessionManager {
            sessions: Table::new(),
            nonce_cache: NonceCache::new(nonce_ttl_secs),
            psk,
            allowed_clients: allowed,
            timestamp_skew: timestamp_skew_secs,
            started: instant_now(),
        }
    }

    /// The pre-shared key.
    pub fn psk(&self) -> (r: &[u8])
        ensures
            r@ == self@.psk,
    {
        self.psk.as_slice()
    }

    /// The tolerated timestamp skew in seconds.
    pub fn timestamp_skew(&self) -> (r: i64)
        ensures
            r == self@.skew,
    {
        self.timestamp_skew
    }

    /// A reading of the store's clock: nanoseconds since the store was made.
    pub fn clock(&self) -> u128 {
        elapsed_since(&self.started).1
    }

    /// Holds a timestamp against the given reading of the wall clock: it
    /// must lie within the tolerated skew of it.
    pub fn validate_timestamp_at(&self, ts: i64, now: i64) -> (r: Result<(), ProtocolError>)
        ensures
            outcome(r) == timestamp_outcome(ts, now, self@.skew),
    {
        check_timestamp(ts, now, self.timestamp_skew)
    }

    /// Holds a timestamp against the wall clock as it reads now.
    pub fn validate_timestamp(&self, ts: i64) -> (r: Result<(), ProtocolError>)
        ensures
            exists|now: i64| outcome(r) == #[trigger] timestamp_outcome(ts, now, self@.skew),
    {
        let now = unix_now();
        let r = self.validate_timestamp_at(ts, now);
        assert(outcome(r) == timestamp_outcome(ts, now, self@.skew));
        r
    }

    /// Holds a client id against the allowlist, if one is configured.
    pub fn validate_client_id(&self, client_id: &str) -> (r: Result<(), ProtocolError>)
        ensures
            outcome(r) == client_outcome(self@.allowed, client_id@),
    {
        match &self.allowed_clients {
            Some(list) => {
                let mut i: usize = 0;
                while i < list.len()
                    invariant
                        i <= list.len(),
                        self@.allowed == Some(texts(list@)),
                        forall|j: int| 0 <= j < i ==> (#[trigger] texts(list@)[j]) != client_id@,
                    decreases list.len() - i,
                {
                    if str_equal(list[i].as_str(), client_id) {
                        assert(texts(list@)[i as int] == client_id@);
                        return Ok(());
                    }
                    i += 1;
                }
                Err(ProtocolError::AuthFailed(String::from_str("client not allowed")))
            },
            None => Ok(()),
        }
    }

    /// Checks the signature of a handshake against the pre-shared key.
    pub fn validate_auth(
        &self,
        client_id: &str,
        server_nonce: &str,
        client_nonce: &str,
        sig: &str,
    ) -> (r: Result<(), ProtocolError>)
        ensures
            outcome(r) == auth_outcome(self@.psk, client_id@, server_nonce@, client_nonce@, sig@),
    {
        let expected = compute_auth_signature(
            self.psk.as_slice(),
            client_id,
            server_nonce,
            client_nonce,
        );
        if !constant_time_compare(expected.as_str(), sig) {
            return Err(ProtocolError::InvalidSignature);
        }
        Ok(())
    }

    /// Checks a handshake nonce key at the given reading of the store's
    /// clock: expired entries are dropped, a key that is still there is a
    /// replay, any other key is recorded.
    pub fn check_and_record_nonce_at(&mut self, nonce_key: String, now: u128) -> (r: Result<
        (),
        ProtocolError,
    >)
        requires
            old(self).wf(),
        ensures
            final(self).wf(),
            final(self)@ == (StoreView {
                ledger: recorded(old(self)@.ledger, nonce_key@, now, old(self)@.ttl),
                ..old(self)@
            }),
            outcome(r) == record_outcome(old(self)@.ledger, nonce_key@, now, old(self)@.ttl),
    {
        self.nonce_cache.check_and_record(nonce_key, now)
    }

    /// Checks a handshake nonce key at the present reading of the store's
    /// clock.
    pub fn check_and_record_nonce(&mut self, nonce_key: String) -> (r: Result<(), ProtocolError>)
        requires
            old(self).wf(),
        ensures
            final(self).wf(),
            exists|now: u128|
                final(self)@ == (StoreView {
                    ledger: #[trigger] recorded(old(self)@.ledger, nonce_key@, now, old(self)@.ttl),
                    ..old(self)@
                }) && outcome(r) == record_outcome(
                    old(self)@.ledger,
                    nonce_key@,
                    now,
                    old(self)@.ttl,
                ),
    {
        let now = self.clock();
        let ghost key = nonce_key@;
        let r = self.check_and_record_nonce_at(nonce_key, now);
        assert(self@.ledger == recorded(old(self)@.ledger, key, now, old(self)@.ttl));
        r
    }

    /// Makes the session with the given id for a client that has passed the
    /// handshake, and stores it in place of any session with that id.
    pub fn create_session_with(
        &mut self,
        session_id: String,
        client_id: String,
        server_nonce: &str,
        client_nonce: &str,
        now: u128,
    ) -> (r: Session)
        requires
            old(self).wf(),
        ensures
            final(self).wf(),
            r@ == new_session(
                old(self)@.psk,
                session_id@,
                client_id@,
                server_nonce@,
                client_nonce@,
                now,
            ),
            final(self)@ == (StoreView {
                sessions: old(self)@.sessions.insert(session_id@, r@),
                ..old(self)@
            }),
    {
        let key = derive_session_key(
            self.psk.as_slice(),
            session_id.as_str(),
            server_nonce,
            client_nonce,
        );
        let session = Session {
            session_id: session_id.clone(),
            client_id,
            session_key: key,
            last_seq: 0,
            created_at: now,
        };
        let copy = session.duplicate();
        self.sessions.insert(session_id, session);
        copy
    }

    /// Makes a session with a fresh random id for a client that has passed
    /// the handshake.
    pub fn create_session(&mut self, client_id: String, server_nonce: &str, client_nonce: &str) -> (r:
        Session)
        requires
            old(self).wf(),
        ensures
            final(self).wf(),
            r.session_id@.len() == 32,
            is_lower_hex(r.session_id@),
            r@ == new_session(
                old(self)@.psk,
                r.session_id@,
                client_id@,
                server_nonce@,
                client_nonce@,
                r.created_at,
            ),
            final(self)@ == (StoreView {
                sessions: old(self)@.sessions.insert(r.session_id@, r@),
                ..old(self)@
            }),
    {
        let session_id = generate_nonce();
        let now = self.clock();
        self.create_session_with(session_id, client_id, server_nonce, client_nonce, now)
    }

    /// A copy of the session with the given id.
    pub fn get_session(&self, session_id: &str) -> (r: Result<Session, ProtocolError>)
        requires
            self.wf(),
        ensures
            match r {
                Ok(s) => self@.sessions.contains_key(session_id@) && s@
                    == self@.sessions[session_id@],
                Err(e) => !self@.sessions.contains_key(session_id@) && e@
                    == ErrorView::SessionNotFound(session_id@),
            },
    {
        match self.sessions.get(session_id) {
            Some(s) => Ok(s.duplicate()),
            None => Err(ProtocolError::SessionNotFound(String::from_str(session_id))),
        }
    }

    /// Offers a sequence number to a session. It is accepted only where it
    /// exceeds the last accepted one, and then becomes the last accepted
    /// one; check and update are one step.
    pub fn validate_and_update_seq(&mut self, session_id: &str, seq: u64) -> (r: Result<
        (),
        ProtocolError,
    >)
        requires
            old(self).wf(),
        ensures
            final(self).wf(),
            outcome(r) == seq_outcome(old(self)@.sessions, session_id@, seq),
            final(self)@ == (StoreView {
                sessions: seq_advanced(old(self)@.sessions, session_id@, seq),
                ..old(self)@
            }),
    {
        let last = match self.sessions.get(session_id) {
            Some(s) => s.last_seq,
            None => {
                return Err(ProtocolError::SessionNotFound(String::from_str(session_id)));
            },
        };
        if seq <= last {
            return Err(ProtocolError::SequenceViolation(last, seq));
        }
        match self.sessions.remove(session_id) {
            Some(s) => {
                let mut s = s;
                s.last_seq = seq;
                self.sessions.insert(String::from_str(session_id), s);
                assert(self@.sessions =~= seq_advanced(old(self)@.sessions, session_id@, seq));
            },
            None => {},
        }
        Ok(())
    }

    /// Removes the session with the given id, if there is one.
    pub fn remove_session(&mut self, session_id: &str)
        requires
            old(self).wf(),
        ensures
            final(self).wf(),
            final(self)@ == (StoreView {
                sessions: old(self)@.sessions.remove(session_id@),
                ..old(self)@
            }),
    {
        let _ = self.sessions.remove(session_id);
    }
}

} // verus!
