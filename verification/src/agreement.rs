//! What the two sides of a connection are proved to agree on, and what a
//! step of the server never does to a session.

use crate::client::{command_message, handshake_step, ClientView};
use crate::crypto::{auth_signature, session_key};
use crate::error::ErrorView;
use crate::handler::{
    auth_step, check_command, hello_step, nonce_key, step, ActionView, AmbientView, EventView,
    PhaseView,
};
use crate::json::JsonModel;
use crate::messages::{MessageView, PayloadView};
use crate::session::{client_allowed, is_replay, timestamp_in_bounds, StoreView};
use vstd::prelude::*;

verus! {

/// The message that a step hands out, if it hands one out to be answered.
pub open spec fn sent(r: Result<Option<MessageView>, ErrorView>) -> Option<MessageView> {
    match r {
        Ok(Some(m)) => Some(m),
        _ => None,
    }
}

/// The message that the server replies with, if it replies.
pub open spec fn replied(a: ActionView) -> Option<MessageView> {
    match a {
        ActionView::Reply(m) => Some(m),
        _ => None,
    }
}

/// A client and a server that share the pre-shared key complete the
/// handshake: the server admits the client, the client's `auth` passes every
/// check of the server as long as it is timely and its nonce key is no
/// replay, the server announces a session, and both sides then hold the same
/// session id and the same session key, with the sequence counters at 0.
pub proof fn lemma_handshake_completes(
    store: StoreView,
    client: ClientView,
    client_time: i64,
    client_nonce: Seq<char>,
    hello_env: AmbientView,
    auth_env: AmbientView,
)
    requires
        store.psk == client.psk,
        client_allowed(store.allowed, client.client_id),
        timestamp_in_bounds(client_time, auth_env.unix_time, store.skew),
        !is_replay(
            store.ledger,
            nonce_key(client.client_id, hello_env.nonce, client_nonce),
            auth_env.clock,
            store.ttl,
        ),
    ensures
        ({
            let (c1, hello) = handshake_step(client, None, client_time, client_nonce);
            let s1 = hello_step(store, sent(hello)->Some_0, hello_env);
            let (c2, auth) = handshake_step(c1, replied(s1.action), client_time, client_nonce);
            let s2 = auth_step(
                s1.store,
                client.client_id,
                hello_env.nonce,
                sent(auth)->Some_0,
                auth_env,
            );
            let (c3, done) = handshake_step(c2, replied(s2.action), client_time, client_nonce);
            &&& sent(hello) is Some
            &&& s1.phase == (PhaseView::AwaitingAuth {
                client_id: client.client_id,
                server_nonce: hello_env.nonce,
            })
            &&& sent(auth) is Some
            &&& s2.phase == (PhaseView::Authenticated { session_id: auth_env.nonce })
            &&& done == Ok::<Option<MessageView>, ErrorView>(None)
            &&& c3.session_id == Some(auth_env.nonce)
            &&& c3.seq == 0
            &&& s2.store.sessions.contains_key(auth_env.nonce)
            &&& s2.store.sessions[auth_env.nonce].last_seq == 0
            &&& s2.store.sessions[auth_env.nonce].client_id == client.client_id
            &&& c3.session_key == Some(s2.store.sessions[auth_env.nonce].session_key)
        }),
{
    reveal_tags();
}

/// The tags of the handshake messages are pairwise different.
proof fn reveal_tags()
    ensures
        "hello"@ != "challenge"@,
        "hello"@ != "auth"@,
        "hello"@ != "auth_ok"@,
        "challenge"@ != "auth"@,
        "challenge"@ != "auth_ok"@,
        "auth"@ != "auth_ok"@,
{
    reveal_strlit("hello");
    reveal_strlit("challenge");
    reveal_strlit("auth");
    reveal_strlit("auth_ok");
    assert("hello"@.len() == 5);
    assert("challenge"@.len() == 9);
    assert("auth"@.len() == 4);
    assert("auth_ok"@.len() == 7);
}

/// A command that an authenticated client signs passes every check of a
/// server that holds the same session key, as long as it is timely and its
/// sequence number exceeds the session's cursor; the cursor then stands at
/// the client's counter.
pub proof fn lemma_signed_command_is_accepted(
    store: StoreView,
    client: ClientView,
    cmd: Seq<char>,
    args: JsonModel,
    client_time: i64,
    client_nonce: Seq<char>,
    env: AmbientView,
)
    requires
        client.session_id is Some,
        client.session_key is Some,
        client.seq < u64::MAX,
        store.sessions.contains_key(client.session_id->Some_0),
        store.sessions[client.session_id->Some_0].session_key == client.session_key->Some_0,
        store.sessions[client.session_id->Some_0].last_seq <= client.seq,
        timestamp_in_bounds(client_time, env.unix_time, store.skew),
    ensures
        ({
            let id = client.session_id->Some_0;
            let m = command_message(client, cmd, args, client_time, client_nonce);
            let (after, checked) = check_command(store, id, m->Ok_0, env);
            &&& m is Ok
            &&& checked matches Ok(accepted)
            &&& accepted.seq == client.seq + 1
            &&& accepted.cmd == cmd
            &&& accepted.args == args
            &&& after.sessions[id].last_seq == client.seq + 1
        }),
{
}

/// A command whose signature was made with another key than the session's,
/// or over other fields than it carries, is refused, unless the two
/// signatures happen to be the same text.
pub proof fn lemma_forged_command_is_refused(
    store: StoreView,
    session_id: Seq<char>,
    m: MessageView,
    env: AmbientView,
)
    requires
        check_command(store, session_id, m, env).1 is Ok,
    ensures
        m.payload is Cmd,
        m.seq is Some,
        m.nonce is Some,
        store.sessions.contains_key(session_id),
        m.seq->Some_0 > store.sessions[session_id].last_seq,
        timestamp_in_bounds(m.ts, env.unix_time, store.skew),
        m.payload->Cmd_sig == crate::crypto::cmd_signature(
            store.sessions[session_id].session_key,
            session_id,
            m.seq->Some_0,
            m.nonce->Some_0,
            m.payload->Cmd_cmd,
            crate::crypto::canonical_json(m.payload->Cmd_args),
        ),
{
}

/// Whatever happens on whatever connection, a step of the server leaves
/// every other session in place, with its key and with a cursor that has not
/// moved back. The session of the connection itself is either removed, when
/// the connection ends, or kept with a cursor that has not moved back. The
/// fresh nonce must not be the id of the session looked at.
pub proof fn lemma_step_keeps_sessions(
    store: StoreView,
    version: Seq<char>,
    phase: PhaseView,
    event: EventView,
    env: AmbientView,
    id: Seq<char>,
)
    requires
        store.sessions.contains_key(id),
        env.nonce != id,
    ensures
        ({
            let after = step(store, version, phase, event, env).store;
            let ended = phase == (PhaseView::Authenticated { session_id: id }) && step(
                store,
                version,
                phase,
                event,
                env,
            ).phase is Closed;
            &&& after.psk == store.psk
            &&& after.skew == store.skew
            &&& after.ttl == store.ttl
            &&& after.allowed == store.allowed
            &&& ended ==> !after.sessions.contains_key(id)
            &&& !ended ==> {
                &&& after.sessions.contains_key(id)
                &&& after.sessions[id].last_seq >= store.sessions[id].last_seq
                &&& after.sessions[id].session_key == store.sessions[id].session_key
                &&& after.sessions[id].client_id == store.sessions[id].client_id
                &&& after.sessions[id].session_id == store.sessions[id].session_id
            }
        }),
{
}

/// Before the handshake is done no step makes, moves or removes a session,
/// and no step but the one that accepts the handshake leads to an
/// authenticated connection.
pub proof fn lemma_no_session_without_handshake(
    store: StoreView,
    version: Seq<char>,
    phase: PhaseView,
    event: EventView,
    env: AmbientView,
)
    requires
        phase is AwaitingHello || phase is AwaitingAuth || phase is Closed,
    ensures
        ({
            let s = step(store, version, phase, event, env);
            &&& s.phase is Authenticated ==> {
                &&& phase matches PhaseView::AwaitingAuth { client_id, server_nonce }
                &&& event matches EventView::Received(m)
                &&& m.payload matches PayloadView::Auth { client_id: c, server_nonce: n, client_nonce, sig }
                &&& c == client_id
                &&& n == server_nonce
                &&& sig == auth_signature(store.psk, client_id, server_nonce, client_nonce)
                &&& timestamp_in_bounds(m.ts, env.unix_time, store.skew)
                &&& !is_replay(
                    store.ledger,
                    nonce_key(client_id, server_nonce, client_nonce),
                    env.clock,
                    store.ttl,
                )
                &&& s.store.sessions == store.sessions.insert(
                    env.nonce,
                    s.store.sessions[env.nonce],
                )
            }
            &&& !(s.phase is Authenticated) ==> s.store.sessions == store.sessions
            &&& phase is Closed ==> s.phase is Closed && s.store == store
        }),
{
}

} // verus!
