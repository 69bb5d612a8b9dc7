//! Little-endian encoding of the fixed-width integers stored in account data.

use vstd::prelude::*;
use vstd::bytes::{spec_u64_from_le_bytes, spec_u64_to_le_bytes, u64_from_le_bytes, u64_to_le_bytes};

verus! {

/// The signed value stored in eight little-endian bytes (two's complement).
pub open spec fn spec_i64_from_le_bytes(s: Seq<u8>) -> i64 {
    spec_u64_from_le_bytes(s) as i64
}

/// The eight little-endian bytes of a signed value (two's complement).
pub open spec fn spec_i64_to_le_bytes(x: i64) -> Seq<u8> {
    spec_u64_to_le_bytes(x as u64)
}

/// Decoding the encoding of an unsigned value gives the value back.
pub proof fn lemma_u64_le_roundtrip(x: u64)
    ensures
        spec_u64_to_le_bytes(x).len() == 8,
        spec_u64_from_le_bytes(spec_u64_to_le_bytes(x)) == x,
{
    vstd::bytes::lemma_auto_spec_u64_to_from_le_bytes();
    assert(spec_u64_to_le_bytes(x).len() == 8);
}

/// Encoding the decoding of eight bytes gives the bytes back.
pub proof fn lemma_u64_le_bytes_roundtrip(s: Seq<u8>)
    requires
        s.len() == 8,
    ensures
        spec_u64_to_le_bytes(spec_u64_from_le_bytes(s)) == s,
{
    vstd::bytes::lemma_auto_spec_u64_to_from_le_bytes();
    assert(spec_u64_to_le_bytes(spec_u64_from_le_bytes(s)) == s);
}

/// Decoding the encoding of a signed value gives the value back.
pub proof fn lemma_i64_le_roundtrip(x: i64)
    ensures
        spec_i64_to_le_bytes(x).len() == 8,
        spec_i64_from_le_bytes(spec_i64_to_le_bytes(x)) == x,
{
    lemma_u64_le_roundtrip(x as u64);
    assert(((x as u64) as i64) == x) by (bit_vector);
}

/// Reads an unsigned integer from eight little-endian bytes.
pub fn u64_from_le_array(b: &[u8; 8]) -> (x: u64)
    ensures
        x == spec_u64_from_le_bytes(b@),
{
    u64_from_le_bytes(b.as_slice())
}

/// Writes an unsigned integer as eight little-endian bytes.
pub fn u64_to_le_array(x: u64) -> (b: [u8; 8])
    ensures
        b@ == spec_u64_to_le_bytes(x),
{
    let v = u64_to_le_bytes(x);
    let b: [u8; 8] = [v[0], v[1], v[2], v[3], v[4], v[5], v[6], v[7]];
    assert(b@ =~= v@);
    b
}

/// Reads a signed integer from eight little-endian bytes.
pub fn i64_from_le_array(b: &[u8; 8]) -> (x: i64)
    ensures
        x == spec_i64_from_le_bytes(b@),
{
    let u = u64_from_le_array(b);
    u as i64
}

/// Writes a signed integer as eight little-endian bytes.
pub fn i64_to_le_array(x: i64) -> (b: [u8; 8])
    ensures
        b@ == spec_i64_to_le_bytes(x),
{
    u64_to_le_array(x as u64)
}

} // verus!
