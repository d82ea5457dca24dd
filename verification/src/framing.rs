//! The frame codec: a 4-byte big-endian length followed by that many bytes
//! of payload. The declared length is held against the limit before any
//! payload byte is looked at.

use crate::error::{ErrorView, ProtocolError};
use crate::json::{json_parse, json_text};
use crate::messages::Message;
use crate::wire::{decode_payload, encode_payload, message_json, payload_outcome};
use bytes::{Buf, BufMut, BytesMut};
use vstd::prelude::*;
use vstd::slice::*;
use vstd::string::*;
use vstd::utf8::*;

verus! {

#[verifier::external_type_specification]
#[verifier::external_body]
pub struct ExBytesMut(BytesMut);

/// The largest frame any deployment may allow: 10 MiB.
pub const MAX_FRAME_SIZE: u32 = 10 * 1024 * 1024;

/// The frame limit of most deployments: 1 MiB.
pub const DEFAULT_MAX_FRAME_SIZE: u32 = 1024 * 1024;

/// The bytes that a `BytesMut` holds, first to last.
pub uninterp spec fn buffer_bytes(b: BytesMut) -> Seq<u8>;

/// The four bytes of a length, most significant first.
pub open spec fn be_u32(n: u32) -> Seq<u8> {
    seq![
        (n / 0x100_0000) as u8,
        ((n / 0x1_0000) % 0x100) as u8,
        ((n / 0x100) % 0x100) as u8,
        (n % 0x100) as u8,
    ]
}

/// The length that the first four bytes of `bytes` declare.
pub open spec fn declared_length(bytes: Seq<u8>) -> int {
    bytes[0] as int * 0x100_0000 + bytes[1] as int * 0x1_0000 + bytes[2] as int * 0x100
        + bytes[3] as int
}

/// The frame that carries `payload`.
pub open spec fn frame(payload: Seq<u8>) -> Seq<u8> {
    be_u32(payload.len() as u32) + payload
}

/// What the start of a byte stream holds.
pub enum Scan {
    /// Fewer bytes than one whole frame.
    Incomplete,
    /// A length prefix that exceeds the limit; holds the declared length.
    TooLarge(u32),
    /// One whole frame: its payload and the bytes that follow it.
    Complete { payload: Seq<u8>, rest: Seq<u8> },
}

/// Scans the start of a byte stream for one frame. The limit is checked as
/// soon as the four bytes of the prefix are there, whatever follows them.
pub open spec fn scan_frame(bytes: Seq<u8>, max_frame_size: u32) -> Scan {
    if bytes.len() < 4 {
        Scan::Incomplete
    } else if declared_length(bytes) > max_frame_size {
        Scan::TooLarge(declared_length(bytes) as u32)
    } else if bytes.len() < 4 + declared_length(bytes) {
        Scan::Incomplete
    } else {
        Scan::Complete {
            payload: bytes.subrange(4, 4 + declared_length(bytes)),
            rest: bytes.subrange(4 + declared_length(bytes), bytes.len() as int),
        }
    }
}

/// The length prefix is read back as it was written.
pub proof fn lemma_length_roundtrip(n: u32, rest: Seq<u8>)
    ensures
        be_u32(n).len() == 4,
        declared_length(be_u32(n) + rest) == n,
{
    let b = be_u32(n) + rest;
    assert(b[0] == be_u32(n)[0] && b[1] == be_u32(n)[1] && b[2] == be_u32(n)[2] && b[3] == be_u32(
        n,
    )[3]);
    let v = n as int;
    assert(v == (v / 0x100_0000) * 0x100_0000 + ((v / 0x1_0000) % 0x100) * 0x1_0000 + ((v / 0x100)
        % 0x100) * 0x100 + v % 0x100) by (nonlinear_arith)
        requires
            0 <= v < 0x1_0000_0000,
    ;
    assert(0 <= v / 0x100_0000 < 0x100) by (nonlinear_arith)
        requires
            0 <= v < 0x1_0000_0000,
    ;
}

/// A frame within the limit is scanned as its payload, and the bytes after
/// it are left over.
pub proof fn lemma_frame_roundtrip(payload: Seq<u8>, rest: Seq<u8>, max_frame_size: u32)
    requires
        payload.len() <= max_frame_size,
    ensures
        scan_frame(frame(payload) + rest, max_frame_size) == (Scan::Complete { payload, rest }),
{
    let n = payload.len() as u32;
    let bytes = frame(payload) + rest;
    lemma_length_roundtrip(n, payload + rest);
    assert(bytes =~= be_u32(n) + (payload + rest));
    assert(bytes.subrange(4, 4 + n) =~= payload);
    assert(bytes.subrange(4 + n, bytes.len() as int) =~= rest);
}

/// A prefix that declares more than the limit is refused on the prefix
/// alone: no byte after it changes the outcome.
pub proof fn lemma_oversized_rejected(header: Seq<u8>, rest: Seq<u8>, max_frame_size: u32)
    requires
        header.len() == 4,
        declared_length(header) > max_frame_size,
    ensures
        scan_frame(header + rest, max_frame_size) == Scan::TooLarge(declared_length(header) as u32),
{
    let bytes = header + rest;
    assert(bytes[0] == header[0] && bytes[1] == header[1] && bytes[2] == header[2] && bytes[3]
        == header[3]);
}

/// A frame that carries the printed document of a well-formed message is
/// read as that message, with nothing lost of envelope or payload, wherever
/// the JSON text is parsed back to the document it was printed from.
pub proof fn lemma_frame_carries_message(
    m: crate::messages::MessageView,
    text: Seq<char>,
    rest: Seq<u8>,
    max_frame_size: u32,
)
    requires
        m.well_formed(),
        json_text(message_json(m)) == Some(text),
        json_parse(encode_utf8(text)) == Some(message_json(m)),
        encode_utf8(text).len() <= max_frame_size,
    ensures
        scan_frame(frame(encode_utf8(text)) + rest, max_frame_size) == (Scan::Complete {
            payload: encode_utf8(text),
            rest,
        }),
        payload_outcome(
            json_parse(encode_utf8(text)),
            Ok::<crate::messages::MessageView, ErrorView>(m),
        ),
{
    lemma_frame_roundtrip(encode_utf8(text), rest, max_frame_size);
    crate::wire::lemma_message_roundtrip(m);
}

/// The length that a 4-byte prefix declares.
pub fn read_length(header: &[u8; 4]) -> (r: u32)
    ensures
        r == declared_length(header@),
{
    let a: u32 = header[0] as u32;
    let b: u32 = header[1] as u32;
    let c: u32 = header[2] as u32;
    let d: u32 = header[3] as u32;
    a * 0x100_0000 + b * 0x1_0000 + c * 0x100 + d
}

/// Holds a declared length against the limit: the number of payload bytes to
/// read, or `FrameTooLarge` where the length exceeds the limit.
pub fn check_frame_length(length: u32, max_frame_size: u32) -> (r: Result<u32, ProtocolError>)
    ensures
        length <= max_frame_size ==> r == Ok::<u32, ProtocolError>(length),
        length > max_frame_size ==> r == Err::<u32, ProtocolError>(
            ProtocolError::FrameTooLarge(length, max_frame_size),
        ),
{
    if length > max_frame_size {
        Err(ProtocolError::FrameTooLarge(length, max_frame_size))
    } else {
        Ok(length)
    }
}

/// Appends the four bytes of a length, most significant first.
pub fn write_length(out: &mut Vec<u8>, n: u32)
    ensures
        final(out)@ == old(out)@ + be_u32(n),
{
    out.push((n / 0x100_0000) as u8);
    out.push(((n / 0x1_0000) % 0x100) as u8);
    out.push(((n / 0x100) % 0x100) as u8);
    out.push((n % 0x100) as u8);
    assert(out@ =~= old(out)@ + be_u32(n));
}

/// The error for a payload that the 4-byte prefix cannot declare.
pub open spec fn unframeable() -> ErrorView {
    ErrorView::FrameTooLarge(u32::MAX, u32::MAX)
}

/// Appends the frame that carries `payload`. A payload longer than the
/// prefix can declare is refused and nothing is appended.
pub fn encode_frame(out: &mut Vec<u8>, payload: &[u8]) -> (r: Result<(), ProtocolError>)
    ensures
        payload@.len() <= u32::MAX ==> r is Ok && final(out)@ == old(out)@ + frame(payload@),
        payload@.len() > u32::MAX ==> (r matches Err(e) && e@ == unframeable() && final(out)@
            == old(out)@),
{
    if payload.len() > u32::MAX as usize {
        return Err(ProtocolError::FrameTooLarge(u32::MAX, u32::MAX));
    }
    write_length(out, payload.len() as u32);
    out.extend_from_slice(payload);
    assert(out@ =~= old(out)@ + frame(payload@));
    Ok(())
}

/// `BytesMut` dereferenced to `[u8]`: the bytes that it holds.
#[verifier::external_body]
fn buffer_slice(b: &BytesMut) -> (r: &[u8])
    ensures
        r@ == buffer_bytes(*b),
{
    &b[..]
}

/// `BytesMut::reserve`: makes room for more bytes; the content stays. It
/// panics where the capacity would overflow `usize`.
#[verifier::external_body]
fn buffer_reserve(b: &mut BytesMut, additional: usize)
    requires
        buffer_bytes(*old(b)).len() + additional <= usize::MAX,
    ensures
        buffer_bytes(*final(b)) == buffer_bytes(*old(b)),
{
    b.reserve(additional)
}

/// `Buf::advance` on a `BytesMut`: drops the first `cnt` bytes. It panics
/// where fewer bytes are there.
#[verifier::external_body]
fn buffer_advance(b: &mut BytesMut, cnt: usize)
    requires
        cnt <= buffer_bytes(*old(b)).len(),
    ensures
        buffer_bytes(*final(b)) == buffer_bytes(*old(b)).subrange(
            cnt as int,
            buffer_bytes(*old(b)).len() as int,
        ),
{
    b.advance(cnt)
}

/// `BytesMut::split_to`: hands out the first `at` bytes and keeps the rest.
/// It panics where fewer bytes are there.
#[verifier::external_body]
fn buffer_split_to(b: &mut BytesMut, at: usize) -> (r: BytesMut)
    requires
        at <= buffer_bytes(*old(b)).len(),
    ensures
        buffer_bytes(r) == buffer_bytes(*old(b)).subrange(0, at as int),
        buffer_bytes(*final(b)) == buffer_bytes(*old(b)).subrange(
            at as int,
            buffer_bytes(*old(b)).len() as int,
        ),
{
    b.split_to(at)
}

/// `BufMut::put_u32` on a `BytesMut`: appends the value in big-endian byte
/// order, growing the buffer as needed.
#[verifier::external_body]
fn buffer_put_u32(b: &mut BytesMut, n: u32)
    requires
        buffer_bytes(*old(b)).len() + 4 <= usize::MAX,
    ensures
        buffer_bytes(*final(b)) == buffer_bytes(*old(b)) + be_u32(n),
{
    b.put_u32(n)
}

/// `BufMut::put_slice` on a `BytesMut`: appends the bytes, growing the
/// buffer as needed.
#[verifier::external_body]
fn buffer_put_slice(b: &mut BytesMut, bytes: &[u8])
    requires
        buffer_bytes(*old(b)).len() + bytes@.len() <= usize::MAX,
    ensures
        buffer_bytes(*final(b)) == buffer_bytes(*old(b)) + bytes@,
{
    b.put_slice(bytes)
}

/// Frames messages into and out of a byte buffer.
pub struct JsonFrameCodec {
    max_frame_size: u32,
}

/// What a decoding step handed out: `None` while the frame is incomplete.
pub open spec fn decoded(r: Result<Option<Message>, ProtocolError>) -> Option<
    Result<crate::messages::MessageView, ErrorView>,
> {
    match r {
        Ok(None) => None,
        Ok(Some(m)) => Some(Ok(m@)),
        Err(e) => Some(Err(e@)),
    }
}

/// The error that ends a read when the stream stops inside a frame.
pub open spec fn truncated() -> ErrorView {
    ErrorView::Io("unexpected end of stream"@)
}

impl JsonFrameCodec {
    /// The largest payload that this codec accepts.
    pub closed spec fn limit(self) -> u32 {
        self.max_frame_size
    }

    /// A codec that accepts payloads of up to `max_frame_size` bytes.
    pub fn new(max_frame_size: u32) -> (r: Self)
        ensures
            r.limit() == max_frame_size,
    {
        Self { max_frame_size }
    }

    /// The largest payload that this codec accepts.
    pub fn max_frame_size(&self) -> (r: u32)
        ensures
            r == self.limit(),
    {
        self.max_frame_size
    }

    /// Takes one message off the front of `src` if a whole frame is there.
    /// With fewer than four bytes, or fewer payload bytes than declared,
    /// nothing is consumed and `None` is returned. A declared length above
    /// the limit fails before the payload is looked at. A whole frame is
    /// consumed, also where its payload is no well-formed message.
    pub fn decode(&mut self, src: &mut BytesMut) -> (r: Result<Option<Message>, ProtocolError>)
        ensures
            final(self).limit() == old(self).limit(),
            match scan_frame(buffer_bytes(*old(src)), old(self).limit()) {
                Scan::Incomplete => r matches Ok(None) && buffer_bytes(*final(src)) == buffer_bytes(
                    *old(src),
                ),
                Scan::TooLarge(n) => r matches Err(e) && e@ == ErrorView::FrameTooLarge(
                    n,
                    old(self).limit(),
                ) && buffer_bytes(*final(src)) == buffer_bytes(*old(src)),
                Scan::Complete { payload, rest } => buffer_bytes(*final(src)) == rest && (decoded(
                    r,
                ) matches Some(o) && payload_outcome(json_parse(payload), o)),
            },
    {
        let available = buffer_slice(src).len();
        if available < 4 {
            return Ok(None);
        }
        let length = {
            let bytes = buffer_slice(src);
            let header: [u8; 4] = [bytes[0], bytes[1], bytes[2], bytes[3]];
            read_length(&header)
        };
        if length > self.max_frame_size {
            return Err(ProtocolError::FrameTooLarge(length, self.max_frame_size));
        }
        let frame_size: u64 = 4 + length as u64;
        if (available as u64) < frame_size {
            let missing: u64 = frame_size - available as u64;
            if frame_size <= usize::MAX as u64 {
                buffer_reserve(src, missing as usize);
            }
            return Ok(None);
        }
        buffer_advance(src, 4);
        let payload = buffer_split_to(src, length as usize);
        proof {
            let all = buffer_bytes(*old(src));
            assert(buffer_bytes(payload) =~= all.subrange(4, 4 + length));
            assert(buffer_bytes(*src) =~= all.subrange(4 + length, all.len() as int));
        }
        match decode_payload(buffer_slice(&payload)) {
            Ok(m) => Ok(Some(m)),
            Err(e) => Err(e),
        }
    }

    /// Appends the frame of `item` to `dst`. Nothing is appended where the
    /// message cannot be printed or its payload is longer than the prefix
    /// can declare.
    pub fn encode(&mut self, item: Message, dst: &mut BytesMut) -> (r: Result<(), ProtocolError>)
        ensures
            final(self).limit() == old(self).limit(),
            match json_text(message_json(item@)) {
                None => r matches Err(ProtocolError::Json(_)) && buffer_bytes(*final(dst))
                    == buffer_bytes(*old(dst)),
                Some(t) => if encode_utf8(t).len() <= u32::MAX && buffer_bytes(*old(dst)).len() + 4
                    + encode_utf8(t).len() <= usize::MAX {
                    r is Ok && buffer_bytes(*final(dst)) == buffer_bytes(*old(dst)) + frame(
                        encode_utf8(t),
                    )
                } else {
                    r matches Err(e) && e@ == unframeable() && buffer_bytes(*final(dst))
                        == buffer_bytes(*old(dst))
                },
            },
    {
        let payload = match encode_payload(&item) {
            Ok(p) => p,
            Err(e) => {
                return Err(e);
            },
        };
        let held = buffer_slice(dst).len();
        if payload.len() > u32::MAX as usize || held > usize::MAX - 4 || payload.len() > usize::MAX
            - 4 - held {
            return Err(ProtocolError::FrameTooLarge(u32::MAX, u32::MAX));
        }
        buffer_reserve(dst, 4 + payload.len());
        buffer_put_u32(dst, payload.len() as u32);
        buffer_put_slice(dst, payload.as_slice());
        assert(buffer_bytes(*dst) =~= buffer_bytes(*old(dst)) + frame(payload@));
        Ok(())
    }
}

impl Default for JsonFrameCodec {
    /// A codec with the frame limit of most deployments.
    fn default() -> (r: Self)
        ensures
            r.limit() == DEFAULT_MAX_FRAME_SIZE,
    {
        Self::new(DEFAULT_MAX_FRAME_SIZE)
    }
}

/// Reads one frame from the start of `reader` and the message in it; also
/// returns the number of bytes that the frame takes. A declared length above
/// the limit fails on the prefix alone; a stream that stops inside the frame
/// is an I/O error.
pub fn read_frame(reader: &[u8], max_frame_size: u32) -> (r: Result<(Message, usize), ProtocolError>)
    ensures
        match scan_frame(reader@, max_frame_size) {
            Scan::Incomplete => r matches Err(e) && e@ == truncated(),
            Scan::TooLarge(n) => r matches Err(e) && e@ == ErrorView::FrameTooLarge(
                n,
                max_frame_size,
            ),
            Scan::Complete { payload, rest } => payload_outcome(
                json_parse(payload),
                match r {
                    Ok((m, _)) => Ok(m@),
                    Err(e) => Err(e@),
                },
            ) && (r matches Ok((_, used)) ==> used == 4 + payload.len()),
        },
{
    if reader.len() < 4 {
        return Err(ProtocolError::Io(String::from_str("unexpected end of stream")));
    }
    let header: [u8; 4] = [reader[0], reader[1], reader[2], reader[3]];
    let length = match check_frame_length(read_length(&header), max_frame_size) {
        Ok(n) => n,
        Err(e) => {
            return Err(e);
        },
    };
    if ((reader.len() - 4) as u64) < length as u64 {
        return Err(ProtocolError::Io(String::from_str("unexpected end of stream")));
    }
    let end: usize = 4 + length as usize;
    let payload = slice_subrange(reader, 4, end);
    match decode_payload(payload) {
        Ok(m) => Ok((m, end)),
        Err(e) => Err(e),
    }
}

/// Appends the frame of `message` to `writer`. Nothing is appended where the
/// message cannot be printed or its payload is longer than the prefix can
/// declare.
pub fn write_frame(writer: &mut Vec<u8>, message: &Message) -> (r: Result<(), ProtocolError>)
    ensures
        match json_text(message_json(message@)) {
            None => r matches Err(ProtocolError::Json(_)) && final(writer)@ == old(writer)@,
            Some(t) => if encode_utf8(t).len() <= u32::MAX {
                r is Ok && final(writer)@ == old(writer)@ + frame(encode_utf8(t))
            } else {
                r matches Err(e) && e@ == unframeable() && final(writer)@ == old(writer)@
            },
        },
{
    match encode_payload(message) {
        Ok(payload) => encode_frame(writer, payload.as_slice()),
        Err(e) => Err(e),
    }
}

} // verus!
