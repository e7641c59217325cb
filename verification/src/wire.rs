//! The wire layout: a header of one tag byte and a 32-bit big-endian body
//! length, then the body.

use crate::message::{MessageHeader, MessageId};
use byteorder::{BigEndian, ByteOrder, WriteBytesExt};
use vstd::prelude::*;
use vstd::slice::slice_to_vec;

verus! {

/// Length in bytes of the header of every message.
pub const HEADER_LEN: usize = 5;

/// The four bytes of `v`, most significant first.
pub open spec fn be_bytes(v: u32) -> Seq<u8> {
    seq![
        (v / 0x100_0000) as u8,
        ((v / 0x1_0000) % 0x100) as u8,
        ((v / 0x100) % 0x100) as u8,
        (v % 0x100) as u8,
    ]
}

/// The number whose most significant byte is `bytes[0]`, read from the first
/// four bytes.
pub open spec fn be_value(bytes: Seq<u8>) -> u32
    recommends
        bytes.len() >= 4,
{
    (bytes[0] * 0x100_0000 + bytes[1] * 0x1_0000 + bytes[2] * 0x100 + bytes[3]) as u32
}

/// The five bytes of a header.
pub open spec fn header_bytes(header: MessageHeader) -> Seq<u8> {
    seq![header.msg_type.spec_tag()] + be_bytes(header.len)
}

/// The header that five bytes stand for: byte 0 is the tag, bytes 1 to 4 the
/// body length.
pub open spec fn header_of(bytes: Seq<u8>) -> MessageHeader
    recommends
        bytes.len() == HEADER_LEN,
{
    MessageHeader {
        msg_type: MessageId::spec_from_tag(bytes[0]),
        len: be_value(bytes.subrange(1, HEADER_LEN as int)),
    }
}

/// A whole message: the header that announces the body's length, then the
/// body.
pub open spec fn framed(msg_type: MessageId, body: Seq<u8>) -> Seq<u8>
    recommends
        body.len() <= u32::MAX,
{
    header_bytes(MessageHeader { msg_type, len: body.len() as u32 }) + body
}

/// What a receiver makes of a whole message: the header and the body, where
/// the bytes after the header are exactly as many as the header announces.
pub open spec fn unframed(bytes: Seq<u8>) -> Option<(MessageHeader, Seq<u8>)> {
    if bytes.len() >= HEADER_LEN && bytes.len() - HEADER_LEN == header_of(
        bytes.subrange(0, HEADER_LEN as int),
    ).len {
        Some(
            (
                header_of(bytes.subrange(0, HEADER_LEN as int)),
                bytes.subrange(HEADER_LEN as int, bytes.len() as int),
            ),
        )
    } else {
        None
    }
}

/// Appends `v` to `buf` with byteorder's `WriteBytesExt::write_u32` in
/// `BigEndian` order. Trusted: the buffer grows by the four bytes of `v`, most
/// significant first, and what it held stays. Writing to a `Vec` cannot fail,
/// so the call's result holds nothing.
#[verifier::external_body]
fn push_u32_be(buf: &mut Vec<u8>, v: u32)
    ensures
        final(buf)@ == old(buf)@ + be_bytes(v),
{
    let _ = buf.write_u32::<BigEndian>(v);
}

/// Reads a number with byteorder's `ByteOrder::read_u32` for `BigEndian`.
/// Trusted: the result is the big-endian value of the first four bytes. The
/// call panics on fewer than four bytes, which `requires` leaves out.
#[verifier::external_body]
fn read_u32_be(bytes: &[u8]) -> (v: u32)
    requires
        bytes@.len() >= 4,
    ensures
        v == be_value(bytes@),
{
    BigEndian::read_u32(bytes)
}

/// Writes a header as its five bytes.
pub fn encode_header(header: &MessageHeader) -> (out: Vec<u8>)
    ensures
        out@ == header_bytes(*header),
        out@.len() == HEADER_LEN,
{
    let mut out: Vec<u8> = Vec::new();
    out.push(header.msg_type.tag());
    push_u32_be(&mut out, header.len);
    out
}

/// Reads a header from its five bytes. No tag is rejected here: one without
/// a meaning comes back as `MessageId::Unknown`.
pub fn decode_header(bytes: &[u8; HEADER_LEN]) -> (header: MessageHeader)
    ensures
        header == header_of(bytes@),
        header.wf(),
{
    let msg_type = MessageId::from_tag(bytes[0]);
    let len = read_u32_be(&bytes[1..HEADER_LEN]);
    MessageHeader { msg_type, len }
}

/// Puts the header in front of a body.
pub fn frame(msg_type: MessageId, body: &[u8]) -> (out: Vec<u8>)
    requires
        body@.len() <= u32::MAX,
    ensures
        out@ == framed(msg_type, body@),
        out@.len() == HEADER_LEN + body@.len(),
{
    let header = MessageHeader { msg_type, len: body.len() as u32 };
    let mut out = encode_header(&header);
    let mut tail = slice_to_vec(body);
    out.append(&mut tail);
    out
}

/// Splits a whole message into its header and its body. `None` when the
/// bytes are fewer than a header or the body is not of the announced length.
pub fn unframe(bytes: &[u8]) -> (out: Option<(MessageHeader, Vec<u8>)>)
    ensures
        match out {
            Some((header, body)) => unframed(bytes@) == Some((header, body@)),
            None => unframed(bytes@) is None,
        },
{
    if bytes.len() < HEADER_LEN {
        return None;
    }
    let msg_type = MessageId::from_tag(bytes[0]);
    let len = read_u32_be(&bytes[1..HEADER_LEN]);
    let header = MessageHeader { msg_type, len };
    assert(bytes@.subrange(0, HEADER_LEN as int).subrange(1, HEADER_LEN as int)
        =~= bytes@.subrange(1, HEADER_LEN as int));
    if bytes.len() - HEADER_LEN != len as usize {
        return None;
    }
    let body = slice_to_vec(&bytes[HEADER_LEN..bytes.len()]);
    Some((header, body))
}

/// A 32-bit number written big-endian and read back is the same number.
pub proof fn lemma_be_round_trip(v: u32)
    ensures
        be_bytes(v).len() == 4,
        be_value(be_bytes(v)) == v,
{
}

/// Four bytes read as a big-endian number and written back are the same
/// bytes.
pub proof fn lemma_be_bytes_round_trip(bytes: Seq<u8>)
    requires
        bytes.len() == 4,
    ensures
        be_bytes(be_value(bytes)) == bytes,
{
    assert(be_bytes(be_value(bytes)) =~= bytes);
}

/// A well-formed header written as bytes and read back is the same header.
pub proof fn lemma_header_round_trip(header: MessageHeader)
    requires
        header.wf(),
    ensures
        header_bytes(header).len() == HEADER_LEN,
        header_of(header_bytes(header)) == header,
{
    lemma_be_round_trip(header.len);
    assert(header_bytes(header).subrange(1, HEADER_LEN as int) =~= be_bytes(header.len));
}

/// Five bytes read as a header and written back are the same bytes, whatever
/// the tag.
pub proof fn lemma_header_bytes_round_trip(bytes: Seq<u8>)
    requires
        bytes.len() == HEADER_LEN,
    ensures
        header_of(bytes).wf(),
        header_bytes(header_of(bytes)) == bytes,
{
    lemma_be_bytes_round_trip(bytes.subrange(1, HEADER_LEN as int));
    assert(header_bytes(header_of(bytes)) =~= bytes);
}

/// A framed message taken apart gives back the message type and the body,
/// and the length in its header is the length of the body.
pub proof fn lemma_frame_round_trip(msg_type: MessageId, body: Seq<u8>)
    requires
        msg_type.wf(),
        body.len() <= u32::MAX,
    ensures
        framed(msg_type, body).len() == HEADER_LEN + body.len(),
        unframed(framed(msg_type, body)) == Some(
            (MessageHeader { msg_type, len: body.len() as u32 }, body),
        ),
{
    let header = MessageHeader { msg_type, len: body.len() as u32 };
    let bytes = framed(msg_type, body);
    lemma_header_round_trip(header);
    assert(bytes.subrange(0, HEADER_LEN as int) =~= header_bytes(header));
    assert(bytes.subrange(HEADER_LEN as int, bytes.len() as int) =~= body);
}

} // verus!
