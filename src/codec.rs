//! Little-endian encoding of the record's one field.
use vstd::prelude::*;

verus! {

/// Byte `k` of `v`, counting from the least significant, for `k` in `0..8`.
pub open spec fn byte_of(v: u64, k: u64) -> u8 {
    (#[verifier::truncate] (((v >> (8 * k) as u64) & 0xff) as u8))
}

/// The eight bytes of `v`, least significant first.
pub open spec fn le_bytes(v: u64) -> Seq<u8> {
    seq![
        byte_of(v, 0), byte_of(v, 1), byte_of(v, 2), byte_of(v, 3),
        byte_of(v, 4), byte_of(v, 5), byte_of(v, 6), byte_of(v, 7),
    ]
}

/// Each byte of `le_bytes(v)` is the matching `byte_of(v, k)`.
pub proof fn lemma_le_bytes_index(v: u64)
    ensures
        le_bytes(v).len() == 8,
        forall|k: int| 0 <= k < 8 ==> #[trigger] le_bytes(v)[k] == byte_of(v, k as u64),
{
    let b = le_bytes(v);
    assert(b[0] == byte_of(v, 0) && b[1] == byte_of(v, 1) && b[2] == byte_of(v, 2));
    assert(b[3] == byte_of(v, 3) && b[4] == byte_of(v, 4) && b[5] == byte_of(v, 5));
    assert(b[6] == byte_of(v, 6) && b[7] == byte_of(v, 7));
}

/// The `u64` whose little-endian bytes are the first eight of `b`.
pub open spec fn le_value(b: Seq<u8>) -> u64
    recommends
        b.len() >= 8,
{
    (b[0] as u64) | ((b[1] as u64) << 8) | ((b[2] as u64) << 16) | ((b[3] as u64) << 24)
        | ((b[4] as u64) << 32) | ((b[5] as u64) << 40) | ((b[6] as u64) << 48) | ((b[7] as u64)
        << 56)
}

/// Reading back the bytes of `v` gives `v`.
pub proof fn lemma_le_round_trip(v: u64)
    ensures
        le_value(le_bytes(v)) == v,
        le_bytes(v).len() == 8,
{
    let b = le_bytes(v);
    assert(b[0] == byte_of(v, 0) && b[7] == byte_of(v, 7));
    assert(v == ((((v >> 0u64) & 0xff) as u8) as u64) | (((((v >> 8u64) & 0xff) as u8) as u64) << 8)
        | (((((v >> 16u64) & 0xff) as u8) as u64) << 16) | (((((v >> 24u64) & 0xff) as u8) as u64)
        << 24) | (((((v >> 32u64) & 0xff) as u8) as u64) << 32) | (((((v >> 40u64) & 0xff) as u8)
        as u64) << 40) | (((((v >> 48u64) & 0xff) as u8) as u64) << 48) | (((((v >> 56u64) & 0xff)
        as u8) as u64) << 56)) by (bit_vector);
}

/// Appends the little-endian bytes of `v` to `out`.
pub fn push_le_u64(out: &mut Vec<u8>, v: u64)
    ensures
        final(out)@ == old(out)@ + le_bytes(v),
{
    let ghost start = out@;
    out.push((#[verifier::truncate] (((v >> 0) & 0xff) as u8)));
    assert(out@.last() == byte_of(v, 0));
    out.push((#[verifier::truncate] (((v >> 8) & 0xff) as u8)));
    assert(out@.last() == byte_of(v, 1));
    out.push((#[verifier::truncate] (((v >> 16) & 0xff) as u8)));
    assert(out@.last() == byte_of(v, 2));
    out.push((#[verifier::truncate] (((v >> 24) & 0xff) as u8)));
    assert(out@.last() == byte_of(v, 3));
    out.push((#[verifier::truncate] (((v >> 32) & 0xff) as u8)));
    assert(out@.last() == byte_of(v, 4));
    out.push((#[verifier::truncate] (((v >> 40) & 0xff) as u8)));
    assert(out@.last() == byte_of(v, 5));
    out.push((#[verifier::truncate] (((v >> 48) & 0xff) as u8)));
    assert(out@.last() == byte_of(v, 6));
    out.push((#[verifier::truncate] (((v >> 56) & 0xff) as u8)));
    assert(out@.last() == byte_of(v, 7));
    assert(out@ =~= start + le_bytes(v));
}

/// Reads the `u64` stored little-endian at `b[at..at + 8]`.
pub fn read_le_u64(b: &[u8], at: usize) -> (r: u64)
    requires
        at + 8 <= b@.len(),
    ensures
        r == le_value(b@.subrange(at as int, at + 8)),
{
    (b[at] as u64) | ((b[at + 1] as u64) << 8) | ((b[at + 2] as u64) << 16) | ((b[at + 3] as u64)
        << 24) | ((b[at + 4] as u64) << 32) | ((b[at + 5] as u64) << 40) | ((b[at + 6] as u64) << 48)
        | ((b[at + 7] as u64) << 56)
}

} // verus!
