use vstd::prelude::*;

use crate::error::Error;
use crate::wire::{be_bytes, frame_prefix, lemma_parse_frame, spec_frame, spec_parse_frame};

verus! {

/// The four little-endian bytes that the codec writes for a `u32`.
pub open spec fn u32_le_bytes(v: u32) -> Seq<u8> {
    seq![
        (v % 0x100) as u8,
        ((v / 0x100) % 0x100) as u8,
        ((v / 0x10000) % 0x100) as u8,
        (v / 0x1000000) as u8,
    ]
}

/// The `u32` that four little-endian bytes denote.
pub open spec fn u32_from_le(b: Seq<u8>) -> u32
    recommends
        b.len() == 4,
{
    (b[0] + b[1] * 0x100 + b[2] * 0x10000 + b[3] * 0x1000000) as u32
}

/// Relies on bincode::serialize with its default configuration: a `u32` is
/// written fixed-width as exactly its four little-endian bytes, and writing
/// an integer into a fresh byte vector has no failure path.
#[verifier::external_body]
fn bincode_encode_u32(v: u32) -> (r: Result<Vec<u8>, Error>)
    ensures
        r is Ok,
        r matches Ok(b) ==> b@ == u32_le_bytes(v),
{
    match bincode::serialize(&v) {
        Ok(b) => Ok(b),
        Err(_) => Err(Error::Encode),
    }
}

/// Relies on bincode::deserialize with its default configuration: a `u32`
/// is read fixed-width from the first four bytes, little-endian, with
/// trailing bytes allowed; fewer than four bytes fail with an error.
#[verifier::external_body]
fn bincode_decode_u32(b: &[u8]) -> (r: Result<u32, Error>)
    ensures
        r matches Ok(w) ==> b@.len() >= 4 && w == u32_from_le(b@.subrange(0, 4)),
        r matches Err(e) ==> b@.len() < 4 && e == Error::Decode,
{
    match bincode::deserialize::<u32>(b) {
        Ok(v) => Ok(v),
        Err(_) => Err(Error::Decode),
    }
}

/// Encodes a value for the wire: the payload bytes the codec produces for
/// it, and the length prefix that announces them. Written back to back,
/// the two parts are exactly one frame.
pub fn encode_message_u32(v: u32) -> (r: Result<(Vec<u8>, Vec<u8>), Error>)
    ensures
        r matches Ok(m) && m.0@ == be_bytes(4) && m.1@ == u32_le_bytes(v) && m.0@ + m.1@
            == spec_frame(u32_le_bytes(v)),
{
    let payload = match bincode_encode_u32(v) {
        Ok(b) => b,
        Err(e) => {
            return Err(e);
        },
    };
    let prefix = match frame_prefix(&payload) {
        Ok(p) => p,
        Err(e) => {
            return Err(e);
        },
    };
    Ok((prefix, payload))
}

/// Decodes the payload bytes of one received frame back into a value, or a
/// decode error where the bytes are too short for one.
pub fn decode_message_u32(payload: &Vec<u8>) -> (r: Result<u32, Error>)
    ensures
        payload@.len() >= 4 ==> r == Ok::<u32, Error>(u32_from_le(payload@.subrange(0, 4))),
        payload@.len() < 4 ==> r == Err::<u32, Error>(Error::Decode),
{
    bincode_decode_u32(payload.as_slice())
}

/// Round trip of the codec: the bytes written for a value decode to that
/// value again, and they fill the frame they announce exactly.
pub proof fn lemma_codec_round_trip(v: u32)
    ensures
        u32_le_bytes(v).len() == 4,
        u32_le_bytes(v).subrange(0, 4) == u32_le_bytes(v),
        u32_from_le(u32_le_bytes(v)) == v,
{
    let b0 = (v % 0x100) as u8;
    let b1 = ((v / 0x100) % 0x100) as u8;
    let b2 = ((v / 0x10000) % 0x100) as u8;
    let b3 = (v / 0x1000000) as u8;
    assert(b0 + b1 * 0x100 + b2 * 0x10000 + b3 * 0x1000000 == v) by (bit_vector)
        requires
            b0 == (v % 0x100) as u8 && b1 == ((v / 0x100) % 0x100) as u8 && b2 == ((v / 0x10000)
                % 0x100) as u8 && b3 == (v / 0x1000000) as u8,
    ;
    assert(u32_le_bytes(v).subrange(0, 4) =~= u32_le_bytes(v));
}

/// One message end to end: the frame that a send writes for a value parses
/// back off the stream to exactly the payload whose decoding is that value,
/// whatever else follows on the stream.
pub proof fn lemma_message_round_trip(v: u32, rest: Seq<u8>)
    ensures
        spec_parse_frame(spec_frame(u32_le_bytes(v)) + rest) == Some((u32_le_bytes(v), rest)),
        u32_from_le(u32_le_bytes(v)) == v,
{
    lemma_codec_round_trip(v);
    lemma_parse_frame(u32_le_bytes(v), rest);
}

} // verus!
