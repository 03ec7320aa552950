use vstd::prelude::*;

verus! {

// The scalar layer of the payload codec.
//
// State and message payloads cross the component boundary as opaque,
// fixed-schema binary blobs: integers are little-endian and fixed-width,
// booleans are a single byte. The functions here state that layout
// exactly and are proved to round-trip.

/// A boolean as one byte: 1 for true, 0 for false.
pub open spec fn spec_encode_bool(b: bool) -> Seq<u8> {
    seq![if b { 1u8 } else { 0u8 }]
}

/// The boolean a one-byte payload decodes to; bytes other than 0 and 1
/// are rejected.
pub open spec fn spec_decode_bool(s: Seq<u8>) -> Option<bool> {
    if s.len() == 1 && s[0] == 1u8 {
        Some(true)
    } else if s.len() == 1 && s[0] == 0u8 {
        Some(false)
    } else {
        None
    }
}

/// A `u64` as eight little-endian bytes.
pub open spec fn spec_encode_u64(n: u64) -> Seq<u8> {
    seq![
        (n & 0xff) as u8,
        ((n >> 8) & 0xff) as u8,
        ((n >> 16) & 0xff) as u8,
        ((n >> 24) & 0xff) as u8,
        ((n >> 32) & 0xff) as u8,
        ((n >> 40) & 0xff) as u8,
        ((n >> 48) & 0xff) as u8,
        ((n >> 56) & 0xff) as u8,
    ]
}

/// The `u64` eight little-endian bytes decode to.
pub open spec fn spec_decode_u64(s: Seq<u8>) -> u64
    recommends
        s.len() == 8,
{
    (s[0] as u64) | ((s[1] as u64) << 8) | ((s[2] as u64) << 16) | ((s[3] as u64) << 24) | ((
    s[4] as u64) << 32) | ((s[5] as u64) << 40) | ((s[6] as u64) << 48) | ((s[7] as u64) << 56)
}

/// An `i64` as eight little-endian bytes of its two's-complement value.
pub open spec fn spec_encode_i64(v: i64) -> Seq<u8> {
    spec_encode_u64(v as u64)
}

/// The `i64` eight little-endian bytes decode to.
pub open spec fn spec_decode_i64(s: Seq<u8>) -> i64
    recommends
        s.len() == 8,
{
    spec_decode_u64(s) as i64
}


/// A `u32` as four little-endian bytes.
pub open spec fn spec_encode_u32(n: u32) -> Seq<u8> {
    seq![
        (n & 0xff) as u8,
        ((n >> 8) & 0xff) as u8,
        ((n >> 16) & 0xff) as u8,
        ((n >> 24) & 0xff) as u8,
    ]
}

/// The `u32` four little-endian bytes decode to.
pub open spec fn spec_decode_u32(s: Seq<u8>) -> u32
    recommends
        s.len() == 4,
{
    (s[0] as u32) | ((s[1] as u32) << 8) | ((s[2] as u32) << 16) | ((s[3] as u32) << 24)
}

/// Decoding undoes encoding for 32-bit unsigned integers.
pub proof fn lemma_u32_round_trip(n: u32)
    ensures
        spec_decode_u32(spec_encode_u32(n)) == n,
{
    assert(((n & 0xff) as u8) as u32 | ((((n >> 8) & 0xff) as u8) as u32) << 8 | ((((n >> 16)
        & 0xff) as u8) as u32) << 16 | ((((n >> 24) & 0xff) as u8) as u32) << 24 == n)
        by (bit_vector);
}

/// A `u32` as four little-endian bytes.
pub fn encode_u32(n: u32) -> (r: Vec<u8>)
    ensures
        r@ =~= spec_encode_u32(n),
{
    let mut out: Vec<u8> = Vec::new();
    out.push((n & 0xff) as u8);
    out.push(((n >> 8) & 0xff) as u8);
    out.push(((n >> 16) & 0xff) as u8);
    out.push(((n >> 24) & 0xff) as u8);
    out
}

/// The `u32` encoded at offset `at` of a payload.
pub fn decode_u32(data: &Vec<u8>, at: usize) -> (r: u32)
    requires
        at + 4 <= data@.len(),
    ensures
        r == spec_decode_u32(data@.subrange(at as int, at as int + 4)),
{
    let len = data.len();
    (data[at] as u32) | ((data[at + 1] as u32) << 8) | ((data[at + 2] as u32) << 16) | ((data[at
        + 3] as u32) << 24)
}

/// Decoding undoes encoding for booleans.
pub proof fn lemma_bool_round_trip(b: bool)
    ensures
        spec_decode_bool(spec_encode_bool(b)) == Some(b),
{
}

/// Decoding undoes encoding for 64-bit unsigned integers.
pub proof fn lemma_u64_round_trip(n: u64)
    ensures
        spec_decode_u64(spec_encode_u64(n)) == n,
{
    let s = spec_encode_u64(n);
    assert(((n & 0xff) as u64) | (((n >> 8) & 0xff) as u64) << 8 | (((n >> 16) & 0xff) as u64)
        << 16 | (((n >> 24) & 0xff) as u64) << 24 | (((n >> 32) & 0xff) as u64) << 32 | (((n >> 40)
        & 0xff) as u64) << 40 | (((n >> 48) & 0xff) as u64) << 48 | (((n >> 56) & 0xff) as u64)
        << 56 == n) by (bit_vector);
    assert((n & 0xff) < 256 && ((n >> 8) & 0xff) < 256 && ((n >> 16) & 0xff) < 256 && ((n >> 24)
        & 0xff) < 256 && ((n >> 32) & 0xff) < 256 && ((n >> 40) & 0xff) < 256 && ((n >> 48) & 0xff)
        < 256 && ((n >> 56) & 0xff) < 256) by (bit_vector);
    assert(((n & 0xff) as u8) as u64 == n & 0xff) by (bit_vector);
    assert((((n >> 8) & 0xff) as u8) as u64 == (n >> 8) & 0xff) by (bit_vector);
    assert((((n >> 16) & 0xff) as u8) as u64 == (n >> 16) & 0xff) by (bit_vector);
    assert((((n >> 24) & 0xff) as u8) as u64 == (n >> 24) & 0xff) by (bit_vector);
    assert((((n >> 32) & 0xff) as u8) as u64 == (n >> 32) & 0xff) by (bit_vector);
    assert((((n >> 40) & 0xff) as u8) as u64 == (n >> 40) & 0xff) by (bit_vector);
    assert((((n >> 48) & 0xff) as u8) as u64 == (n >> 48) & 0xff) by (bit_vector);
    assert((((n >> 56) & 0xff) as u8) as u64 == (n >> 56) & 0xff) by (bit_vector);
}

/// Decoding undoes encoding for 64-bit signed integers.
pub proof fn lemma_i64_round_trip(v: i64)
    ensures
        spec_decode_i64(spec_encode_i64(v)) == v,
{
    lemma_u64_round_trip(v as u64);
    assert((v as u64) as i64 == v) by (bit_vector);
}

/// A boolean as one byte.
pub fn encode_bool(b: bool) -> (r: Vec<u8>)
    ensures
        r@ =~= spec_encode_bool(b),
{
    let mut v: Vec<u8> = Vec::new();
    v.push(if b {
        1
    } else {
        0
    });
    v
}

/// The boolean a payload decodes to, or `None` if the payload is not the
/// encoding of a boolean.
pub fn decode_bool(data: &Vec<u8>) -> (r: Option<bool>)
    ensures
        r == spec_decode_bool(data@),
{
    if data.len() == 1 {
        let b = data[0];
        if b == 1 {
            Some(true)
        } else if b == 0 {
            Some(false)
        } else {
            None
        }
    } else {
        None
    }
}

/// An `i64` as eight little-endian bytes.
pub fn encode_i64(v: i64) -> (r: Vec<u8>)
    ensures
        r@ =~= spec_encode_i64(v),
{
    let n = v as u64;
    let mut out: Vec<u8> = Vec::new();
    out.push((n & 0xff) as u8);
    out.push(((n >> 8) & 0xff) as u8);
    out.push(((n >> 16) & 0xff) as u8);
    out.push(((n >> 24) & 0xff) as u8);
    out.push(((n >> 32) & 0xff) as u8);
    out.push(((n >> 40) & 0xff) as u8);
    out.push(((n >> 48) & 0xff) as u8);
    out.push(((n >> 56) & 0xff) as u8);
    out
}

/// The `i64` encoded at offset `at` of a payload.
pub fn decode_i64(data: &Vec<u8>, at: usize) -> (r: i64)
    requires
        at + 8 <= data@.len(),
    ensures
        r == spec_decode_i64(data@.subrange(at as int, at as int + 8)),
{
    let len = data.len();
    let n: u64 = (data[at] as u64) | ((data[at + 1] as u64) << 8) | ((data[at + 2] as u64) << 16)
        | ((data[at + 3] as u64) << 24) | ((data[at + 4] as u64) << 32) | ((data[at + 5] as u64)
        << 40) | ((data[at + 6] as u64) << 48) | ((data[at + 7] as u64) << 56);
    #[verifier::truncate] (n as i64)
}

} // verus!
