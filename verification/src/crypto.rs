//! The signature engine: HMAC-SHA256 over the handshake and command fields,
//! session-key derivation, fresh nonces and a comparison that looks at every
//! byte.

use crate::hexcode::{
    encode_hex, hex_decode, hex_string, is_lower_hex, lemma_hex_injective, lemma_hex_roundtrip,
};
use crate::json::{json_text, JsonModel, JsonValue};
use crate::text::{concat3, decimal, lemma_utf8_injective, u64_to_string};
use hmac::{Hmac, Mac};
use rand::Rng;
use sha2::Sha256;
use vstd::prelude::*;
use vstd::string::*;
use vstd::utf8::*;

verus! {

/// The HMAC-SHA256 tag of `data` under `key`.
pub uninterp spec fn hmac_sha256(key: Seq<u8>, data: Seq<u8>) -> Seq<u8>;

/// `Hmac::<Sha256>`: `new_from_slice` with the key, which accepts a key of
/// any length, `update` with the data, `finalize`. The tag has 32 bytes.
#[verifier::external_body]
fn hmac_sha256_bytes(key: &[u8], data: &[u8]) -> (r: Vec<u8>)
    ensures
        r@ == hmac_sha256(key@, data@),
        r@.len() == 32,
{
    let mut mac = Hmac::<Sha256>::new_from_slice(key).expect("HMAC can take key of any size");
    mac.update(data);
    mac.finalize().into_bytes().to_vec()
}

/// `rand::thread_rng().gen()`: sixteen bytes from the thread's
/// cryptographically secure generator.
#[verifier::external_body]
fn random_bytes_16() -> (r: Vec<u8>)
    ensures
        r@.len() == 16,
{
    rand::thread_rng().gen::<[u8; 16]>().to_vec()
}

/// The HMAC-SHA256 tag as lower-case hexadecimal text.
pub open spec fn hmac_hex(key: Seq<u8>, data: Seq<u8>) -> Seq<char> {
    hex_string(hmac_sha256(key, data))
}

/// The bytes signed during the handshake: the three fields, one after the
/// other.
pub open spec fn auth_data(
    client_id: Seq<char>,
    server_nonce: Seq<char>,
    client_nonce: Seq<char>,
) -> Seq<u8> {
    encode_utf8(client_id + server_nonce + client_nonce)
}

/// The handshake signature.
pub open spec fn auth_signature(
    psk: Seq<u8>,
    client_id: Seq<char>,
    server_nonce: Seq<char>,
    client_nonce: Seq<char>,
) -> Seq<char> {
    hmac_hex(psk, auth_data(client_id, server_nonce, client_nonce))
}

/// The key of a session: the raw tag over session id and both nonces.
pub open spec fn session_key(
    psk: Seq<u8>,
    session_id: Seq<char>,
    server_nonce: Seq<char>,
    client_nonce: Seq<char>,
) -> Seq<u8> {
    hmac_sha256(psk, encode_utf8(session_id + server_nonce + client_nonce))
}

/// The text of the arguments that a command signature covers: what
/// `serde_json` prints for them, and `{}` where it reports an error.
pub open spec fn canonical_json(args: JsonModel) -> Seq<char> {
    match json_text(args) {
        Some(t) => t,
        None => seq!['{', '}'],
    }
}

/// The bytes that a command signature covers: session id, sequence number
/// in decimal, nonce, command name and the text of the arguments.
pub open spec fn cmd_data(
    session_id: Seq<char>,
    seq: u64,
    nonce: Seq<char>,
    cmd: Seq<char>,
    args_json: Seq<char>,
) -> Seq<u8> {
    encode_utf8(session_id + decimal(seq as nat) + nonce + cmd + args_json)
}

/// The signature of a command.
pub open spec fn cmd_signature(
    key: Seq<u8>,
    session_id: Seq<char>,
    seq: u64,
    nonce: Seq<char>,
    cmd: Seq<char>,
    args_json: Seq<char>,
) -> Seq<char> {
    hmac_hex(key, cmd_data(session_id, seq, nonce, cmd, args_json))
}

/// A fresh nonce: sixteen random bytes as 32 lower-case hexadecimal digits.
pub fn generate_nonce() -> (r: String)
    ensures
        r@.len() == 32,
        is_lower_hex(r@),
{
    let bytes = random_bytes_16();
    encode_hex(bytes.as_slice())
}

/// HMAC-SHA256 of `data` under `key`, as 64 lower-case hexadecimal digits.
pub fn compute_hmac(key: &[u8], data: &[u8]) -> (r: String)
    ensures
        r@ == hmac_hex(key@, data@),
        r@.len() == 64,
        is_lower_hex(r@),
{
    let tag = hmac_sha256_bytes(key, data);
    encode_hex(tag.as_slice())
}

/// Compares two strings byte by byte without leaving the loop early. Strings
/// of different byte lengths are unequal; strings of one length are equal
/// exactly when no byte differs.
pub fn constant_time_compare(a: &str, b: &str) -> (r: bool)
    ensures
        r == (a@ == b@),
        r == (a.spec_bytes() == b.spec_bytes()),
        a.spec_bytes().len() != b.spec_bytes().len() ==> !r,
        r ==> forall|i: int| 0 <= i < a.spec_bytes().len() ==> a.spec_bytes()[i] == b.spec_bytes()[i],
{
    proof {
        lemma_utf8_injective(a@, b@);
    }
    let x = a.as_bytes();
    let y = b.as_bytes();
    if x.len() != y.len() {
        return false;
    }
    let mut result: u8 = 0;
    let mut i: usize = 0;
    while i < x.len()
        invariant
            i <= x.len(),
            x.len() == y.len(),
            (result == 0) <==> (forall|j: int| 0 <= j < i ==> x@[j] == y@[j]),
        decreases x.len() - i,
    {
        let p = x[i];
        let q = y[i];
        let prev = result;
        assert(((prev | (p ^ q)) == 0) <==> (prev == 0 && p == q)) by (bit_vector);
        result = result | (p ^ q);
        i += 1;
    }
    if result == 0 {
        assert(x@ =~= y@);
    }
    result == 0
}

/// Whether `expected_sig` is the HMAC-SHA256 of `data` under `key` in
/// lower-case hexadecimal.
pub fn verify_hmac(key: &[u8], data: &[u8], expected_sig: &str) -> (r: bool)
    ensures
        r == (expected_sig@ == hmac_hex(key@, data@)),
{
    let computed = compute_hmac(key, data);
    constant_time_compare(computed.as_str(), expected_sig)
}

/// The handshake signature: HMAC under the pre-shared key over client id,
/// server nonce and client nonce.
pub fn compute_auth_signature(
    psk: &[u8],
    client_id: &str,
    server_nonce: &str,
    client_nonce: &str,
) -> (r: String)
    ensures
        r@ == auth_signature(psk@, client_id@, server_nonce@, client_nonce@),
        r@.len() == 64,
{
    let data = concat3(client_id, server_nonce, client_nonce);
    compute_hmac(psk, data.as_str().as_bytes())
}

/// The session key: the 32 raw bytes of the HMAC under the pre-shared key
/// over session id, server nonce and client nonce.
pub fn derive_session_key(
    psk: &[u8],
    session_id: &str,
    server_nonce: &str,
    client_nonce: &str,
) -> (r: Vec<u8>)
    ensures
        r@ == session_key(psk@, session_id@, server_nonce@, client_nonce@),
        r@.len() == 32,
{
    let data = concat3(session_id, server_nonce, client_nonce);
    let sig = compute_hmac(psk, data.as_str().as_bytes());
    proof {
        lemma_hex_roundtrip(hmac_sha256(psk@, encode_utf8(data@)));
    }
    match hex_decode(sig.as_str()) {
        Ok(key) => key,
        Err(_) => {
            proof {
                assert(false);
            }
            Vec::new()
        },
    }
}

/// The signature of a command whose arguments are given as text.
pub fn sign_command(
    session_key: &[u8],
    session_id: &str,
    seq: u64,
    nonce: &str,
    cmd: &str,
    args_json: &str,
) -> (r: String)
    ensures
        r@ == cmd_signature(session_key@, session_id@, seq, nonce@, cmd@, args_json@),
        r@.len() == 64,
{
    let digits = u64_to_string(seq);
    let mut data = String::from_str(session_id);
    data.append(digits.as_str());
    data.append(nonce);
    data.append(cmd);
    data.append(args_json);
    compute_hmac(session_key, data.as_str().as_bytes())
}

/// The text of the arguments that a command signature covers.
pub fn canonical_args(args: &JsonValue) -> (r: String)
    ensures
        r@ == canonical_json(args.model()),
{
    match args.print() {
        Some(t) => t,
        None => {
            let r = String::from_str("{}");
            proof {
                reveal_strlit("{}");
                assert(r@ =~= seq!['{', '}']);
            }
            r
        },
    }
}

/// The signature of a command: HMAC under the session key over session id,
/// sequence number, nonce, command name and the text of the arguments.
pub fn compute_cmd_signature(
    session_key: &[u8],
    session_id: &str,
    seq: u64,
    nonce: &str,
    cmd: &str,
    args: &JsonValue,
) -> (r: String)
    ensures
        r@ == cmd_signature(
            session_key@,
            session_id@,
            seq,
            nonce@,
            cmd@,
            canonical_json(args.model()),
        ),
        r@.len() == 64,
{
    let args_json = canonical_args(args);
    sign_command(session_key, session_id, seq, nonce, cmd, args_json.as_str())
}

/// Whether `expected_sig` is the signature of the command.
pub fn verify_cmd_signature(
    session_key: &[u8],
    session_id: &str,
    seq: u64,
    nonce: &str,
    cmd: &str,
    args: &JsonValue,
    expected_sig: &str,
) -> (r: bool)
    ensures
        r == (expected_sig@ == cmd_signature(
            session_key@,
            session_id@,
            seq,
            nonce@,
            cmd@,
            canonical_json(args.model()),
        )),
{
    let computed = compute_cmd_signature(session_key, session_id, seq, nonce, cmd, args);
    constant_time_compare(computed.as_str(), expected_sig)
}

/// The tag is a function of key and data: equal inputs give equal text.
pub proof fn lemma_hmac_deterministic(k1: Seq<u8>, d1: Seq<u8>, k2: Seq<u8>, d2: Seq<u8>)
    requires
        k1 == k2,
        d1 == d2,
    ensures
        hmac_hex(k1, d1) == hmac_hex(k2, d2),
{
}

/// Two tags have the same hexadecimal text only if they are the same tag.
pub proof fn lemma_hmac_hex_injective(k1: Seq<u8>, d1: Seq<u8>, k2: Seq<u8>, d2: Seq<u8>)
    ensures
        (hmac_hex(k1, d1) == hmac_hex(k2, d2)) <==> (hmac_sha256(k1, d1) == hmac_sha256(k2, d2)),
{
    lemma_hex_injective(hmac_sha256(k1, d1), hmac_sha256(k2, d2));
}

/// With nonces of fixed lengths the signed handshake bytes determine all
/// three fields: a change in any of them changes the bytes.
pub proof fn lemma_auth_data_binds_fields(
    c1: Seq<char>,
    s1: Seq<char>,
    n1: Seq<char>,
    c2: Seq<char>,
    s2: Seq<char>,
    n2: Seq<char>,
)
    requires
        s1.len() == s2.len(),
        n1.len() == n2.len(),
        c1 != c2 || s1 != s2 || n1 != n2,
    ensures
        auth_data(c1, s1, n1) != auth_data(c2, s2, n2),
{
    let a = c1 + s1 + n1;
    let b = c2 + s2 + n2;
    lemma_utf8_injective(a, b);
    if a == b {
        let lc = c1.len() as int;
        let ls = s1.len() as int;
        let la = a.len() as int;
        assert(a.len() == b.len());
        assert(c1.len() == c2.len());
        assert(c1 =~= a.subrange(0, lc));
        assert(c2 =~= b.subrange(0, lc));
        assert(s1 =~= a.subrange(lc, lc + ls));
        assert(s2 =~= b.subrange(lc, lc + ls));
        assert(n1 =~= a.subrange(lc + ls, la));
        assert(n2 =~= b.subrange(lc + ls, la));
        assert(false);
    }
}

/// The handshake signature changes with the key, client id, server nonce or
/// client nonce whenever the tags of the two signed byte strings differ.
pub proof fn lemma_auth_signature_binds_fields(
    psk1: Seq<u8>,
    c1: Seq<char>,
    s1: Seq<char>,
    n1: Seq<char>,
    psk2: Seq<u8>,
    c2: Seq<char>,
    s2: Seq<char>,
    n2: Seq<char>,
)
    requires
        hmac_sha256(psk1, auth_data(c1, s1, n1)) != hmac_sha256(psk2, auth_data(c2, s2, n2)),
    ensures
        auth_signature(psk1, c1, s1, n1) != auth_signature(psk2, c2, s2, n2),
{
    lemma_hmac_hex_injective(psk1, auth_data(c1, s1, n1), psk2, auth_data(c2, s2, n2));
}

} // verus!
