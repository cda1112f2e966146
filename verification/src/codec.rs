//! The wire format: a deterministic binary encoding for zone snapshots.
//!
//! A snapshot crosses into the Store as bytes. The encoding frames the
//! snapshot's payload with a little-endian 64-bit length prefix, so that a
//! reader can check that a stored value is complete before accepting it.

use vstd::prelude::*;
use vstd::bytes::{spec_u64_from_le_bytes, spec_u64_to_le_bytes, u64_from_le_bytes, u64_to_le_bytes};
use vstd::bytes::lemma_auto_spec_u64_to_from_le_bytes;

verus! {

/// A zone's persisted state at a point in time. The payload is opaque to the
/// Store: the Store only frames it, stores it, and hands it back.
#[derive(Debug, PartialEq, Eq)]
pub struct ZoneData {
    payload: Vec<u8>,
}

impl View for ZoneData {
    type V = Seq<u8>;

    closed spec fn view(&self) -> Seq<u8> {
        self.payload@
    }
}

impl ZoneData {
    /// Wraps a payload as a snapshot.
    pub fn new(payload: Vec<u8>) -> (d: ZoneData)
        ensures
            d@ == payload@,
    {
        ZoneData { payload }
    }

    /// The snapshot's payload bytes.
    pub fn payload(&self) -> (p: &Vec<u8>)
        ensures
            p@ == self@,
    {
        &self.payload
    }
}

impl Clone for ZoneData {
    fn clone(&self) -> (d: Self)
        ensures
            d@ == self@,
    {
        ZoneData { payload: copy_bytes(&self.payload) }
    }
}

/// Copies a byte vector element by element.
pub fn copy_bytes(v: &Vec<u8>) -> (r: Vec<u8>)
    ensures
        r@ == v@,
{
    let mut r: Vec<u8> = Vec::new();
    let mut i: usize = 0;
    while i < v.len()
        invariant
            i <= v.len(),
            r@ == v@.take(i as int),
        decreases v.len() - i,
    {
        r.push(v[i]);
        i = i + 1;
        proof {
            assert(r@ =~= v@.take(i as int));
        }
    }
    proof {
        assert(r@ =~= v@);
    }
    r
}

/// The encoding of a payload: an 8-byte little-endian length, then the payload.
pub open spec fn spec_encode(p: Seq<u8>) -> Seq<u8> {
    spec_u64_to_le_bytes(p.len() as u64) + p
}

/// The decoding of stored bytes: accepts exactly the well-framed encodings.
pub open spec fn spec_decode(b: Seq<u8>) -> Option<Seq<u8>> {
    if b.len() >= 8 && spec_u64_from_le_bytes(b.take(8)) == b.len() - 8 {
        Some(b.skip(8))
    } else {
        None
    }
}

/// Encodes a snapshot for storage.
pub fn encode(d: &ZoneData) -> (out: Vec<u8>)
    ensures
        out@ == spec_encode(d@),
{
    let len: u64 = d.payload.len() as u64;
    let mut out = u64_to_le_bytes(len);
    let mut rest = copy_bytes(&d.payload);
    out.append(&mut rest);
    out
}

/// Decodes stored bytes back into a snapshot; rejects anything that is not a
/// complete, well-framed encoding.
pub fn decode(bytes: &Vec<u8>) -> (r: Option<ZoneData>)
    ensures
        r is Some <==> spec_decode(bytes@) is Some,
        r matches Some(d) ==> spec_decode(bytes@) == Some(d@),
{
    if bytes.len() < 8 {
        return None;
    }
    let mut prefix: Vec<u8> = Vec::new();
    let mut i: usize = 0;
    while i < 8
        invariant
            i <= 8,
            bytes@.len() >= 8,
            prefix@ == bytes@.take(i as int),
        decreases 8 - i,
    {
        prefix.push(bytes[i]);
        i = i + 1;
        proof {
            assert(prefix@ =~= bytes@.take(i as int));
        }
    }
    let n: u64 = u64_from_le_bytes(prefix.as_slice());
    if n != (bytes.len() - 8) as u64 {
        return None;
    }
    let mut payload: Vec<u8> = Vec::new();
    let mut j: usize = 8;
    while j < bytes.len()
        invariant
            8 <= j <= bytes@.len(),
            payload@ == bytes@.subrange(8, j as int),
        decreases bytes@.len() - j,
    {
        payload.push(bytes[j]);
        j = j + 1;
        proof {
            assert(payload@ =~= bytes@.subrange(8, j as int));
        }
    }
    proof {
        assert(payload@ =~= bytes@.skip(8));
    }
    Some(ZoneData { payload })
}

/// Round trip: decoding the encoding of any payload yields that payload back.
pub proof fn lemma_round_trip(p: Seq<u8>)
    requires
        p.len() <= u64::MAX,
    ensures
        spec_decode(spec_encode(p)) == Some(p),
{
    lemma_auto_spec_u64_to_from_le_bytes();
    let e = spec_encode(p);
    assert(e.take(8) =~= spec_u64_to_le_bytes(p.len() as u64));
    assert(spec_u64_from_le_bytes(e.take(8)) == p.len() as u64);
    assert(e.skip(8) =~= p);
}

} // verus!
