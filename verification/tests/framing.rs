use bytes::BytesMut;
use c2_proto::error::ProtocolError;
use c2_proto::framing::{
    check_frame_length, encode_frame, read_frame, read_length, write_frame, write_length,
    JsonFrameCodec, DEFAULT_MAX_FRAME_SIZE, MAX_FRAME_SIZE,
};
use c2_proto::json::JsonValue;
use c2_proto::messages::{Message, MessagePayload};
use c2_proto::wire::{decode_payload, encode_payload};

#[test]
fn test_frame_roundtrip() {
    let message = Message::hello("test-client".to_string());

    let mut buffer = Vec::new();
    write_frame(&mut buffer, &message).unwrap();

    let (decoded, _) = read_frame(&buffer, DEFAULT_MAX_FRAME_SIZE).unwrap();

    assert_eq!(message.msg_type, decoded.msg_type);
}

#[test]
fn test_oversized_frame_rejected() {
    let mut buffer = Vec::new();

    // Write a length that exceeds max
    buffer.extend_from_slice(&(DEFAULT_MAX_FRAME_SIZE + 1).to_be_bytes());

    let result = read_frame(&buffer, DEFAULT_MAX_FRAME_SIZE);

    assert!(matches!(result, Err(ProtocolError::FrameTooLarge(_, _))));
}

#[test]
fn test_codec_decode_incomplete() {
    let mut codec = JsonFrameCodec::default();
    let mut buf = BytesMut::new();

    // Only 2 bytes, need 4 for length
    buf.extend_from_slice(&[0, 0]);

    let result = codec.decode(&mut buf).unwrap();
    assert!(result.is_none());
}

#[test]
fn frame_limits_have_their_values() {
    assert_eq!(DEFAULT_MAX_FRAME_SIZE, 1_048_576);
    assert_eq!(MAX_FRAME_SIZE, 10_485_760);
    assert_eq!(JsonFrameCodec::default().max_frame_size(), 1_048_576);
    assert_eq!(JsonFrameCodec::new(17).max_frame_size(), 17);
}

#[test]
fn length_prefix_is_big_endian() {
    let mut out = vec![9u8];
    write_length(&mut out, 0x0102_0304);
    assert_eq!(out, vec![9, 1, 2, 3, 4]);
    assert_eq!(read_length(&[1, 2, 3, 4]), 0x0102_0304);
    assert_eq!(read_length(&[0xff, 0xff, 0xff, 0xff]), u32::MAX);
    assert_eq!(read_length(&[0, 0, 0, 0]), 0);
}

#[test]
fn frame_is_prefix_then_payload() {
    let mut out = Vec::new();
    encode_frame(&mut out, b"abc").unwrap();
    assert_eq!(out, vec![0, 0, 0, 3, b'a', b'b', b'c']);
    encode_frame(&mut out, b"").unwrap();
    assert_eq!(out, vec![0, 0, 0, 3, b'a', b'b', b'c', 0, 0, 0, 0]);
}

#[test]
fn oversized_prefix_is_refused_for_limits_zero_one_and_typical() {
    assert_eq!(check_frame_length(0, 0), Ok(0));
    assert_eq!(check_frame_length(1, 0), Err(ProtocolError::FrameTooLarge(1, 0)));
    assert_eq!(check_frame_length(1, 1), Ok(1));
    assert_eq!(check_frame_length(2, 1), Err(ProtocolError::FrameTooLarge(2, 1)));
    assert_eq!(check_frame_length(1_048_576, 1_048_576), Ok(1_048_576));
    assert_eq!(
        check_frame_length(1_048_577, 1_048_576),
        Err(ProtocolError::FrameTooLarge(1_048_577, 1_048_576))
    );
    // the prefix alone decides: no payload byte is there
    for (declared, limit) in [(1u32, 0u32), (2, 1), (1_048_577, 1_048_576)] {
        let header = declared.to_be_bytes();
        assert_eq!(
            read_frame(&header, limit).err(),
            Some(ProtocolError::FrameTooLarge(declared, limit))
        );
        let mut codec = JsonFrameCodec::new(limit);
        let mut buf = BytesMut::from(&header[..]);
        assert_eq!(
            codec.decode(&mut buf).err(),
            Some(ProtocolError::FrameTooLarge(declared, limit))
        );
        assert_eq!(&buf[..], &header[..]);
    }
}

#[test]
fn a_stream_that_stops_inside_a_frame_is_an_io_error() {
    let message = Message::ping();
    let mut buffer = Vec::new();
    write_frame(&mut buffer, &message).unwrap();
    let cut = &buffer[..buffer.len() - 1];
    assert_eq!(
        read_frame(cut, DEFAULT_MAX_FRAME_SIZE).err(),
        Some(ProtocolError::Io("unexpected end of stream".to_string()))
    );
    assert_eq!(
        read_frame(&buffer[..3], DEFAULT_MAX_FRAME_SIZE).err(),
        Some(ProtocolError::Io("unexpected end of stream".to_string()))
    );
}

#[test]
fn read_frame_reports_the_bytes_it_took() {
    let mut buffer = Vec::new();
    write_frame(&mut buffer, &Message::ping().at(5)).unwrap();
    let first = buffer.len();
    write_frame(&mut buffer, &Message::pong().at(6)).unwrap();
    let (one, used) = read_frame(&buffer, DEFAULT_MAX_FRAME_SIZE).unwrap();
    assert_eq!(used, first);
    assert_eq!(one.msg_type, "ping");
    let (two, used2) = read_frame(&buffer[used..], DEFAULT_MAX_FRAME_SIZE).unwrap();
    assert_eq!(used + used2, buffer.len());
    assert_eq!(two.msg_type, "pong");
    assert_eq!(two.ts, 6);
}

#[test]
fn codec_decodes_incrementally_and_keeps_what_follows() {
    let mut codec = JsonFrameCodec::new(DEFAULT_MAX_FRAME_SIZE);
    let mut wire = BytesMut::new();
    codec.encode(Message::hello("c1".to_string()).at(11), &mut wire).unwrap();
    codec.encode(Message::ping().at(12), &mut wire).unwrap();
    let all = wire.to_vec();

    let mut buf = BytesMut::new();
    let mut seen = Vec::new();
    for byte in all {
        buf.extend_from_slice(&[byte]);
        while let Some(m) = codec.decode(&mut buf).unwrap() {
            seen.push(m);
        }
    }
    assert!(buf.is_empty());
    assert_eq!(seen.len(), 2);
    assert_eq!(seen[0].msg_type, "hello");
    assert_eq!(seen[0].ts, 11);
    match &seen[0].payload {
        MessagePayload::Hello(p) => assert_eq!(p.client_id, "c1"),
        other => panic!("unexpected payload {:?}", other),
    }
    assert_eq!(seen[1].msg_type, "ping");
    assert_eq!(seen[1].ts, 12);
}

#[test]
fn codec_frames_as_write_frame_does() {
    let mut codec = JsonFrameCodec::default();
    let mut wire = BytesMut::from(&b"xy"[..]);
    codec.encode(Message::pong().at(3), &mut wire).unwrap();
    let mut plain = b"xy".to_vec();
    write_frame(&mut plain, &Message::pong().at(3)).unwrap();
    assert_eq!(wire.to_vec(), plain);
    let payload = encode_payload(&Message::pong().at(3)).unwrap();
    assert_eq!(&plain[2..6], &(payload.len() as u32).to_be_bytes());
    assert_eq!(&plain[6..], &payload[..]);
}

#[test]
fn a_payload_that_is_no_json_is_a_serialization_error_and_is_consumed() {
    let mut codec = JsonFrameCodec::default();
    let mut buf = BytesMut::new();
    buf.extend_from_slice(&[0, 0, 0, 3, b'{', b'{', b'{', 0, 0]);
    assert!(matches!(codec.decode(&mut buf), Err(ProtocolError::Json(_))));
    assert_eq!(&buf[..], &[0, 0]);
    assert!(matches!(decode_payload(b"not json"), Err(ProtocolError::Json(_))));
    assert!(matches!(decode_payload(b""), Err(ProtocolError::Json(_))));
}

#[test]
fn payload_text_is_compact_json_with_sorted_keys() {
    let bytes = encode_payload(&Message::hello("c1".to_string()).at(7)).unwrap();
    assert_eq!(
        String::from_utf8(bytes).unwrap(),
        "{\"client_id\":\"c1\",\"ts\":7,\"type\":\"hello\"}"
    );
    let cmd = Message::cmd(
        "sid".to_string(),
        4,
        "n1".to_string(),
        "ECHO".to_string(),
        JsonValue::Object(vec![("text".to_string(), JsonValue::Str("hi".to_string()))]),
        "ab".to_string(),
    )
    .at(-3);
    assert_eq!(
        String::from_utf8(encode_payload(&cmd).unwrap()).unwrap(),
        "{\"args\":{\"text\":\"hi\"},\"cmd\":\"ECHO\",\"nonce\":\"n1\",\"seq\":4,\"session_id\":\"sid\",\"sig\":\"ab\",\"ts\":-3,\"type\":\"cmd\"}"
    );
}
