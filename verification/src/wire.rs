use vstd::prelude::*;

use crate::error::Error;

verus! {

/// The four big-endian bytes of a frame's length field.
pub open spec fn be_bytes(n: u32) -> Seq<u8> {
    seq![
        (n / 0x1000000) as u8,
        ((n / 0x10000) % 0x100) as u8,
        ((n / 0x100) % 0x100) as u8,
        (n % 0x100) as u8,
    ]
}

/// The length that four big-endian bytes denote.
pub open spec fn be_val(b: Seq<u8>) -> u32
    recommends
        b.len() == 4,
{
    (b[0] * 0x1000000 + b[1] * 0x10000 + b[2] * 0x100 + b[3]) as u32
}

/// One frame on the wire: the big-endian length of the payload, then the
/// payload itself.
pub open spec fn spec_frame(payload: Seq<u8>) -> Seq<u8>
    recommends
        payload.len() <= u32::MAX,
{
    be_bytes(payload.len() as u32) + payload
}

/// Splitting the first frame off a byte stream: the payload that the length
/// field announces, and whatever follows it. `None` when the stream is too
/// short to hold the frame it announces.
pub open spec fn spec_parse_frame(s: Seq<u8>) -> Option<(Seq<u8>, Seq<u8>)> {
    if s.len() >= 4 {
        let l = be_val(s.subrange(0, 4)) as int;
        if s.len() >= 4 + l {
            Some((s.subrange(4, 4 + l), s.subrange(4 + l, s.len() as int)))
        } else {
            None
        }
    } else {
        None
    }
}

/// Writes a length as its four big-endian bytes.
pub fn u32_to_be_bytes(n: u32) -> (r: Vec<u8>)
    ensures
        r@ == be_bytes(n),
{
    proof {
        assert(n / 0x1000000 < 256 && (n / 0x10000) % 0x100 < 256 && (n / 0x100) % 0x100 < 256
            && n % 0x100 < 256) by (bit_vector);
    }
    let mut r: Vec<u8> = Vec::new();
    r.push((n / 0x1000000) as u8);
    r.push(((n / 0x10000) % 0x100) as u8);
    r.push(((n / 0x100) % 0x100) as u8);
    r.push((n % 0x100) as u8);
    proof {
        assert(r@ =~= be_bytes(n));
    }
    r
}

/// Reads a length back out of its four big-endian bytes.
pub fn u32_from_be_bytes(b: &Vec<u8>) -> (r: u32)
    requires
        b@.len() == 4,
    ensures
        r == be_val(b@),
{
    let r: u32 = (b[0] as u32) * 0x1000000 + (b[1] as u32) * 0x10000 + (b[2] as u32) * 0x100
        + (b[3] as u32);
    r
}

/// Round trip of the length field: the four big-endian bytes of a length
/// denote that length again.
pub proof fn lemma_be_round_trip(n: u32)
    ensures
        be_bytes(n).len() == 4,
        be_val(be_bytes(n)) == n,
{
    let b0 = (n / 0x1000000) as u8;
    let b1 = ((n / 0x10000) % 0x100) as u8;
    let b2 = ((n / 0x100) % 0x100) as u8;
    let b3 = (n % 0x100) as u8;
    assert(b0 * 0x1000000 + b1 * 0x10000 + b2 * 0x100 + b3 == n) by (bit_vector)
        requires
            b0 == (n / 0x1000000) as u8 && b1 == ((n / 0x10000) % 0x100) as u8 && b2 == ((n
                / 0x100) % 0x100) as u8 && b3 == (n % 0x100) as u8,
    ;
}

/// The length prefix for a payload, or an encode error where the payload is
/// too long for the four-byte length field.
pub fn frame_prefix(payload: &Vec<u8>) -> (r: Result<Vec<u8>, Error>)
    ensures
        payload@.len() <= u32::MAX ==> (r matches Ok(p) && p@ == be_bytes(
            payload@.len() as u32,
        )),
        payload@.len() > u32::MAX ==> r == Err::<Vec<u8>, Error>(Error::Encode),
{
    if payload.len() > u32::MAX as usize {
        return Err(Error::Encode);
    }
    Ok(u32_to_be_bytes(payload.len() as u32))
}

/// A whole frame as one byte vector: the length prefix followed by the
/// payload, or an encode error where the payload is too long.
pub fn build_frame(payload: &Vec<u8>) -> (r: Result<Vec<u8>, Error>)
    ensures
        payload@.len() <= u32::MAX ==> (r matches Ok(f) && f@ == spec_frame(payload@)),
        payload@.len() > u32::MAX ==> r == Err::<Vec<u8>, Error>(Error::Encode),
{
    let mut f = match frame_prefix(payload) {
        Ok(p) => p,
        Err(e) => {
            return Err(e);
        },
    };
    f.extend_from_slice(payload.as_slice());
    Ok(f)
}

/// A complete frame parses back to its own payload, whatever follows it on
/// the stream.
pub proof fn lemma_parse_frame(payload: Seq<u8>, rest: Seq<u8>)
    requires
        payload.len() <= u32::MAX,
    ensures
        spec_parse_frame(spec_frame(payload) + rest) == Some((payload, rest)),
{
    let s = spec_frame(payload) + rest;
    lemma_be_round_trip(payload.len() as u32);
    assert(s.subrange(0, 4) =~= be_bytes(payload.len() as u32));
    let l = be_val(s.subrange(0, 4)) as int;
    assert(l == payload.len());
    assert(s.subrange(4, 4 + l) =~= payload);
    assert(s.subrange(4 + l, s.len() as int) =~= rest);
}

/// A zero-length payload is a legal frame: the wire holds just its length
/// field, and parsing yields the empty payload — a frame, not an end of
/// stream.
pub proof fn lemma_zero_length_frame()
    ensures
        spec_frame(Seq::<u8>::empty()).len() == 4,
        spec_parse_frame(spec_frame(Seq::<u8>::empty())) == Some(
            (Seq::<u8>::empty(), Seq::<u8>::empty()),
        ),
{
    lemma_parse_frame(Seq::<u8>::empty(), Seq::<u8>::empty());
    assert(spec_frame(Seq::<u8>::empty()) + Seq::<u8>::empty() =~= spec_frame(
        Seq::<u8>::empty(),
    ));
}

/// Frames keep their order on the stream: after two frames are written in
/// turn, the first parse yields the first payload, and parsing what remains
/// yields the second, with nothing left over.
pub proof fn lemma_frames_in_order(a: Seq<u8>, b: Seq<u8>)
    requires
        a.len() <= u32::MAX,
        b.len() <= u32::MAX,
    ensures
        spec_parse_frame(spec_frame(a) + spec_frame(b)) == Some((a, spec_frame(b))),
        spec_parse_frame(spec_frame(b)) == Some((b, Seq::<u8>::empty())),
{
    lemma_parse_frame(a, spec_frame(b));
    lemma_parse_frame(b, Seq::<u8>::empty());
    assert(spec_frame(b) + Seq::<u8>::empty() =~= spec_frame(b));
}

} // verus!
