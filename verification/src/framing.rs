//! Framing of the opaque binary messages exchanged with a loader.
//!
//! The manager does not interpret a message beyond its framing length: a
//! frame is a four-byte little-endian length followed by the payload, and
//! framing round-trips byte for byte.

use vstd::prelude::*;
use vstd::bytes::{
    lemma_auto_spec_u32_to_from_le_bytes, spec_u32_from_le_bytes, spec_u32_to_le_bytes,
    u32_from_le_bytes, u32_to_le_bytes,
};
use vstd::slice::slice_subrange;

verus! {

/// The largest payload a frame can carry: its length must fit the four-byte
/// length prefix.
pub const MAX_FRAME_PAYLOAD: usize = 0xFFFF_FFFF;

/// The frame carrying payload `p`: four length bytes, then `p` itself.
pub open spec fn frame_spec(p: Seq<u8>) -> Seq<u8> {
    spec_u32_to_le_bytes(p.len() as u32) + p
}

/// The payload a well-formed frame `b` carries: the bytes after the length
/// prefix, provided the prefix states exactly their count.
pub open spec fn unframe_spec(b: Seq<u8>) -> Option<Seq<u8>> {
    if b.len() >= 4 && spec_u32_from_le_bytes(b.subrange(0, 4)) == b.len() - 4 {
        Some(b.subrange(4, b.len() as int))
    } else {
        None
    }
}

/// Wraps a payload in its frame.
pub fn frame(payload: &Vec<u8>) -> (r: Vec<u8>)
    requires
        payload@.len() <= MAX_FRAME_PAYLOAD,
    ensures
        r@ == frame_spec(payload@),
{
    let n = payload.len() as u32;
    let mut r = u32_to_le_bytes(n);
    let mut i: usize = 0;
    while i < payload.len()
        invariant
            i <= payload.len(),
            payload@.len() <= MAX_FRAME_PAYLOAD,
            n == payload@.len() as u32,
            r@ == spec_u32_to_le_bytes(n) + payload@.subrange(0, i as int),
        decreases payload.len() - i,
    {
        r.push(payload[i]);
        proof {
            assert(r@ =~= spec_u32_to_le_bytes(n) + payload@.subrange(0, i as int + 1));
        }
        i = i + 1;
    }
    proof {
        assert(payload@.subrange(0, payload@.len() as int) =~= payload@);
    }
    r
}

/// Recovers the payload from a frame, or reports that the bytes are not a
/// well-formed frame.
pub fn unframe(bytes: &Vec<u8>) -> (r: Option<Vec<u8>>)
    ensures
        (r matches Some(p) ==> unframe_spec(bytes@) == Some(p@)),
        (r is None ==> unframe_spec(bytes@) is None),
{
    if bytes.len() < 4 {
        return None;
    }
    let prefix = slice_subrange(bytes.as_slice(), 0, 4);
    let n = u32_from_le_bytes(prefix);
    proof {
        lemma_auto_spec_u32_to_from_le_bytes();
    }
    if !(n as usize == bytes.len() - 4) {
        return None;
    }
    let mut p: Vec<u8> = Vec::new();
    let mut i: usize = 4;
    while i < bytes.len()
        invariant
            4 <= i <= bytes.len(),
            p@ == bytes@.subrange(4, i as int),
        decreases bytes.len() - i,
    {
        p.push(bytes[i]);
        proof {
            assert(p@ =~= bytes@.subrange(4, i as int + 1));
        }
        i = i + 1;
    }
    Some(p)
}

/// Framing round-trips: the frame built for a payload parses back to
/// exactly that payload, byte for byte.
pub proof fn lemma_frame_round_trip(p: Seq<u8>)
    requires
        p.len() <= MAX_FRAME_PAYLOAD,
    ensures
        unframe_spec(frame_spec(p)) == Some(p),
{
    lemma_auto_spec_u32_to_from_le_bytes();
    let f = frame_spec(p);
    assert(f.subrange(0, 4) =~= spec_u32_to_le_bytes(p.len() as u32));
    assert(spec_u32_from_le_bytes(f.subrange(0, 4)) == p.len());
    assert(f.subrange(4, f.len() as int) =~= p);
}

/// A frame determines its payload: two equal frames carry equal payloads.
pub proof fn lemma_frame_injective(a: Seq<u8>, b: Seq<u8>)
    requires
        a.len() <= MAX_FRAME_PAYLOAD,
        b.len() <= MAX_FRAME_PAYLOAD,
        frame_spec(a) == frame_spec(b),
    ensures
        a == b,
{
    lemma_frame_round_trip(a);
    lemma_frame_round_trip(b);
}

} // verus!
