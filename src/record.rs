//! The record type and its byte layout: an eight-byte type tag followed by
//! the little-endian `data` field.
use vstd::prelude::*;
use vstd::string::StringSliceAdditionalSpecFns;
use crate::codec::{le_bytes, le_value, push_le_u64, read_le_u64, lemma_le_round_trip};

verus! {

/// Length of the type tag that opens every stored record.
pub const DISCRIMINATOR_LEN: usize = 8;

/// Bytes a record occupies: the tag and one `u64`.
pub const RECORD_SPACE: usize = 16;

/// The text whose digest gives the record's type tag.
pub const ACCOUNT_PREIMAGE: &'static str = "account:MyAccount";

/// What SHA-256 makes of a byte string.
pub uninterp spec fn sha256_of(b: Seq<u8>) -> Seq<u8>;

/// Relies on `anchor_lang::solana_program::hash::hash`: the SHA-256 digest of
/// `b`, handed out by `Hash::to_bytes` as 32 bytes.
#[verifier::external_body]
fn sha256(b: &[u8]) -> (r: Vec<u8>)
    ensures
        r@ == sha256_of(b@),
        r@.len() == 32,
{
    anchor_lang::solana_program::hash::hash(b).to_bytes().to_vec()
}

/// The type tag that a digest yields: its first eight bytes.
pub open spec fn discriminator_of(digest: Seq<u8>) -> Seq<u8> {
    digest.subrange(0, DISCRIMINATOR_LEN as int)
}

/// The type tag of `MyAccount`.
pub open spec fn account_discriminator() -> Seq<u8> {
    discriminator_of(sha256_of(ACCOUNT_PREIMAGE.spec_bytes()))
}

/// The stored form of a record with tag `tag` and field `data`.
pub open spec fn record_bytes(tag: Seq<u8>, data: u64) -> Seq<u8> {
    tag + le_bytes(data)
}

/// Why stored bytes do not hold a record.
#[derive(Clone, Copy, Debug, PartialEq, Eq, Structural)]
pub enum DecodeError {
    /// Fewer bytes than a type tag.
    DiscriminatorNotFound,
    /// The bytes open with another type's tag.
    DiscriminatorMismatch,
    /// The tag matches but the field is cut short.
    DidNotDeserialize,
}

/// The `data` field held by `b` for a record type tagged `tag`, or why there
/// is none. Bytes after the field are ignored.
pub open spec fn decode(tag: Seq<u8>, b: Seq<u8>) -> Result<u64, DecodeError> {
    if b.len() < tag.len() {
        Err(DecodeError::DiscriminatorNotFound)
    } else if b.subrange(0, tag.len() as int) != tag {
        Err(DecodeError::DiscriminatorMismatch)
    } else if b.len() < tag.len() + 8 {
        Err(DecodeError::DidNotDeserialize)
    } else {
        Ok(le_value(b.subrange(tag.len() as int, tag.len() + 8int)))
    }
}

/// The one persistent record: a single `u64`.
#[derive(Clone, Copy, Debug, PartialEq, Eq, Structural)]
pub struct MyAccount {
    pub data: u64,
}

/// First eight bytes of `digest`.
pub fn discriminator_from_digest(digest: &[u8]) -> (r: Vec<u8>)
    requires
        digest@.len() >= DISCRIMINATOR_LEN,
    ensures
        r@ == discriminator_of(digest@),
{
    let mut r: Vec<u8> = Vec::new();
    let mut i: usize = 0;
    while i < DISCRIMINATOR_LEN
        invariant
            i <= DISCRIMINATOR_LEN,
            digest@.len() >= DISCRIMINATOR_LEN,
            r@ == digest@.subrange(0, i as int),
        decreases DISCRIMINATOR_LEN - i,
    {
        r.push(digest[i]);
        i = i + 1;
        assert(r@ =~= digest@.subrange(0, i as int));
    }
    r
}

/// Whether `b` opens with `tag`.
fn starts_with(b: &[u8], tag: &[u8]) -> (r: bool)
    requires
        b@.len() >= tag@.len(),
    ensures
        r == (b@.subrange(0, tag@.len() as int) == tag@),
{
    let mut i: usize = 0;
    while i < tag.len()
        invariant
            i <= tag@.len(),
            b@.len() >= tag@.len(),
            b@.subrange(0, i as int) == tag@.subrange(0, i as int),
        decreases tag@.len() - i,
    {
        if b[i] != tag[i] {
            assert(b@.subrange(0, tag@.len() as int)[i as int] != tag@[i as int]);
            return false;
        }
        i = i + 1;
        assert(b@.subrange(0, i as int) =~= tag@.subrange(0, i as int));
    }
    assert(tag@.subrange(0, i as int) =~= tag@);
    true
}

impl MyAccount {
    /// The record's type tag, from the digest of its name.
    pub fn discriminator() -> (r: Vec<u8>)
        ensures
            r@ == account_discriminator(),
            r@.len() == DISCRIMINATOR_LEN,
    {
        let digest = sha256(ACCOUNT_PREIMAGE.as_bytes());
        discriminator_from_digest(digest.as_slice())
    }

    /// The stored form of this record under type tag `tag`.
    pub fn to_bytes(&self, tag: &[u8]) -> (r: Vec<u8>)
        ensures
            r@ == record_bytes(tag@, self.data),
    {
        let mut r: Vec<u8> = Vec::new();
        let mut i: usize = 0;
        while i < tag.len()
            invariant
                i <= tag@.len(),
                r@ == tag@.subrange(0, i as int),
            decreases tag@.len() - i,
        {
            r.push(tag[i]);
            i = i + 1;
            assert(r@ =~= tag@.subrange(0, i as int));
        }
        assert(tag@.subrange(0, i as int) =~= tag@);
        push_le_u64(&mut r, self.data);
        r
    }

    /// Reads a record of type tag `tag` out of `buf`.
    pub fn from_bytes(buf: &[u8], tag: &[u8]) -> (r: Result<MyAccount, DecodeError>)
        ensures
            match r {
                Ok(a) => decode(tag@, buf@) == Ok::<u64, DecodeError>(a.data),
                Err(e) => decode(tag@, buf@) == Err::<u64, DecodeError>(e),
            },
    {
        if buf.len() < tag.len() {
            return Err(DecodeError::DiscriminatorNotFound);
        }
        if !starts_with(buf, tag) {
            return Err(DecodeError::DiscriminatorMismatch);
        }
        if buf.len() - tag.len() < 8 {
            return Err(DecodeError::DidNotDeserialize);
        }
        Ok(MyAccount { data: read_le_u64(buf, tag.len()) })
    }
}

/// A record's stored form reads back as the same record.
pub proof fn lemma_record_round_trip(tag: Seq<u8>, data: u64)
    ensures
        decode(tag, record_bytes(tag, data)) == Ok::<u64, DecodeError>(data),
        record_bytes(tag, data).len() == tag.len() + 8,
{
    let b = record_bytes(tag, data);
    lemma_le_round_trip(data);
    assert(b.subrange(0, tag.len() as int) =~= tag);
    assert(b.subrange(tag.len() as int, tag.len() + 8int) =~= le_bytes(data));
}

} // verus!
