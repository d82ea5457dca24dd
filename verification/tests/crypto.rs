use c2_proto::crypto::{
    canonical_args, compute_auth_signature, compute_cmd_signature, compute_hmac,
    constant_time_compare, derive_session_key, generate_nonce, sign_command,
    verify_cmd_signature, verify_hmac,
};
use c2_proto::hexcode::{decode_hex, encode_hex};
use c2_proto::json::JsonValue;

fn empty_args() -> JsonValue {
    JsonValue::Object(Vec::new())
}

#[test]
fn test_generate_nonce() {
    let nonce1 = generate_nonce();
    let nonce2 = generate_nonce();

    assert_eq!(nonce1.len(), 32); // 16 bytes = 32 hex chars
    assert_ne!(nonce1, nonce2); // Should be different
}

#[test]
fn test_hmac_computation() {
    let key = b"test-key";
    let data = b"test-data";

    let sig1 = compute_hmac(key, data);
    let sig2 = compute_hmac(key, data);

    assert_eq!(sig1, sig2); // Same inputs = same output
    assert_eq!(sig1.len(), 64); // SHA256 = 32 bytes = 64 hex chars
}

#[test]
fn test_hmac_verification() {
    let key = b"test-key";
    let data = b"test-data";

    let sig = compute_hmac(key, data);

    assert!(verify_hmac(key, data, &sig));
    assert!(!verify_hmac(key, b"wrong-data", &sig));
    assert!(!verify_hmac(b"wrong-key", data, &sig));
}

#[test]
fn test_constant_time_compare() {
    assert!(constant_time_compare("abc", "abc"));
    assert!(!constant_time_compare("abc", "abd"));
    assert!(!constant_time_compare("abc", "ab"));
}

#[test]
fn test_auth_signature() {
    let psk = b"shared-secret";
    let client_id = "client-1";
    let server_nonce = "server-nonce-123";
    let client_nonce = "client-nonce-456";

    let sig = compute_auth_signature(psk, client_id, server_nonce, client_nonce);

    // Verify it's deterministic
    let sig2 = compute_auth_signature(psk, client_id, server_nonce, client_nonce);
    assert_eq!(sig, sig2);

    // Verify it changes with different inputs
    let sig3 = compute_auth_signature(psk, "different-client", server_nonce, client_nonce);
    assert_ne!(sig, sig3);
}

#[test]
fn test_cmd_signature() {
    let session_key = b"session-key-123";
    let session_id = "session-abc";
    let seq = 5;
    let nonce = "nonce-xyz";
    let cmd = "PING";
    let args = empty_args();

    let sig = compute_cmd_signature(session_key, session_id, seq, nonce, cmd, &args);

    assert!(verify_cmd_signature(session_key, session_id, seq, nonce, cmd, &args, &sig));

    // Wrong seq should fail
    assert!(!verify_cmd_signature(session_key, session_id, 6, nonce, cmd, &args, &sig));
}

#[test]
fn hmac_matches_the_published_vector() {
    let sig = compute_hmac(b"Jefe", b"what do ya want for nothing?");
    assert_eq!(sig, "5bdcc146bf60754e6a042426089575c75a003f089d2739839dec58b964ec3843");
}

#[test]
fn hmac_depends_on_key_and_on_data() {
    let base = compute_hmac(b"key", b"data");
    assert_ne!(base, compute_hmac(b"kez", b"data"));
    assert_ne!(base, compute_hmac(b"key", b"datb"));
    assert_ne!(base, "key");
    assert_ne!(base, "data");
}

#[test]
fn hex_text_is_lower_case_and_reads_back() {
    assert_eq!(encode_hex(&[0x00, 0x0f, 0xa5, 0xff]), "000fa5ff");
    assert_eq!(decode_hex("000fA5Ff"), Some(vec![0x00, 0x0f, 0xa5, 0xff]));
    assert_eq!(decode_hex(""), Some(vec![]));
    assert_eq!(decode_hex("abc"), None);
    assert_eq!(decode_hex("zz"), None);
    assert_eq!(decode_hex("\u{e9}"), None);
}

#[test]
fn comparison_covers_every_position() {
    assert!(constant_time_compare("", ""));
    assert!(!constant_time_compare("", "a"));
    assert!(!constant_time_compare("xbc", "abc"));
    assert!(!constant_time_compare("abc", "abx"));
    assert!(!constant_time_compare("abcd", "abc"));
    assert!(constant_time_compare("h\u{e9}llo", "h\u{e9}llo"));
    assert!(!constant_time_compare("h\u{e9}llo", "h\u{e8}llo"));
}

#[test]
fn auth_signature_is_the_hmac_of_the_joined_fields() {
    let sig = compute_auth_signature(b"psk", "c1", "aa", "bb");
    assert_eq!(sig, compute_hmac(b"psk", b"c1aabb"));
}

#[test]
fn auth_signature_changes_with_each_field() {
    let base = compute_auth_signature(b"psk", "client", "server-nonce", "client-nonce");
    assert_ne!(base, compute_auth_signature(b"psk", "clienu", "server-nonce", "client-nonce"));
    assert_ne!(base, compute_auth_signature(b"psk", "client", "server-noncf", "client-nonce"));
    assert_ne!(base, compute_auth_signature(b"psk", "client", "server-nonce", "client-noncf"));
    assert_ne!(base, compute_auth_signature(b"psl", "client", "server-nonce", "client-nonce"));
}

#[test]
fn session_key_is_the_raw_tag() {
    let key = derive_session_key(b"psk", "sid", "sn", "cn");
    assert_eq!(key.len(), 32);
    assert_eq!(encode_hex(&key), compute_hmac(b"psk", b"sidsncn"));
}

#[test]
fn command_signature_covers_the_decimal_sequence_number() {
    let sig = sign_command(b"k", "sid", 1234567890123, "n", "ECHO", "{}");
    assert_eq!(sig, compute_hmac(b"k", b"sid1234567890123nECHO{}"));
    let zero = sign_command(b"k", "sid", 0, "n", "ECHO", "{}");
    assert_eq!(zero, compute_hmac(b"k", b"sid0nECHO{}"));
    let max = sign_command(b"k", "sid", u64::MAX, "n", "ECHO", "{}");
    assert_eq!(max, compute_hmac(b"k", b"sid18446744073709551615nECHO{}"));
}

#[test]
fn arguments_are_signed_in_canonical_form() {
    let one = JsonValue::Object(vec![
        ("b".to_string(), JsonValue::from_i64(2)),
        ("a".to_string(), JsonValue::Str("x".to_string())),
    ]);
    let other = JsonValue::Object(vec![
        ("a".to_string(), JsonValue::Str("x".to_string())),
        ("b".to_string(), JsonValue::from_i64(2)),
    ]);
    assert_eq!(canonical_args(&one), "{\"a\":\"x\",\"b\":2}");
    assert_eq!(canonical_args(&other), "{\"a\":\"x\",\"b\":2}");
    assert_eq!(canonical_args(&empty_args()), "{}");
    let sig = compute_cmd_signature(b"k", "sid", 7, "n", "ECHO", &one);
    assert_eq!(sig, compute_hmac(b"k", b"sid7nECHO{\"a\":\"x\",\"b\":2}"));
    assert!(verify_cmd_signature(b"k", "sid", 7, "n", "ECHO", &other, &sig));
}

#[test]
fn a_tampered_command_signature_is_refused() {
    let args = empty_args();
    let sig = compute_cmd_signature(b"k", "sid", 1, "n", "PING", &args);
    let mut bytes = sig.clone().into_bytes();
    bytes[0] = if bytes[0] == b'0' { b'1' } else { b'0' };
    let tampered = String::from_utf8(bytes).unwrap();
    assert!(!verify_cmd_signature(b"k", "sid", 1, "n", "PING", &args, &tampered));
    assert!(!verify_cmd_signature(b"k", "sid", 1, "m", "PING", &args, &sig));
    assert!(!verify_cmd_signature(b"k", "sie", 1, "n", "PING", &args, &sig));
    assert!(!verify_cmd_signature(b"k", "sid", 1, "n", "PONG", &args, &sig));
}
