//! What holds of the two operations taken together.
use vstd::prelude::*;
use crate::record::{lemma_record_round_trip, record_bytes};
use crate::codec::{le_bytes, lemma_le_bytes_index};
use crate::store::{
    create_outcome, is_writable, overwrite_field, stored_data, update_outcome, AccessMode,
    InitializeView, SlotView, StoreError,
};

verus! {

/// Whether creating in `c` passes every check: the slot is empty and marked
/// for creation, and the payer signed, is writable and can pay.
pub open spec fn is_fresh(c: InitializeView) -> bool {
    &&& c.my_account.access == AccessMode::Init
    &&& c.my_account.storage is None
    &&& c.user.is_signer
    &&& c.user.is_writable
    &&& c.user.lamports >= c.system_program.rent_exempt_minimum
}

/// Creating a record in a fresh slot succeeds, whatever the value, and the
/// slot then reads back that value.
pub proof fn lemma_create_fresh(c: InitializeView, tag: Seq<u8>, data: u64)
    requires
        is_fresh(c),
        tag.len() == 8,
    ensures
        create_outcome(c, tag, data).0 == Ok::<(), StoreError>(()),
        stored_data(tag, create_outcome(c, tag, data).1.my_account) == Some(data),
        create_outcome(c, tag, data).1.my_account.storage == Some(record_bytes(tag, data)),
        record_bytes(tag, data).len() == 16,
{
    lemma_record_round_trip(tag, data);
}

/// Creating twice in the same slot: the second attempt fails with
/// `AlreadyInitialized` and the slot keeps the first value.
pub proof fn lemma_create_twice(c: InitializeView, tag: Seq<u8>, data1: u64, data2: u64)
    requires
        create_outcome(c, tag, data1).0 is Ok,
        tag.len() == 8,
    ensures
        ({
            let first = create_outcome(c, tag, data1).1;
            let second = create_outcome(first, tag, data2);
            &&& second.0 == Err::<(), StoreError>(StoreError::AlreadyInitialized)
            &&& second.1 == first
            &&& stored_data(tag, second.1.my_account) == Some(data1)
        }),
{
    lemma_record_round_trip(tag, data1);
}

/// After creating with `data1`, an update with `data2` under any access that
/// allows writing succeeds, and the slot then reads `data2`: the last write wins.
pub proof fn lemma_update_after_create(
    c: InitializeView,
    tag: Seq<u8>,
    data1: u64,
    data2: u64,
    access: AccessMode,
)
    requires
        create_outcome(c, tag, data1).0 is Ok,
        is_writable(access),
        tag.len() == 8,
    ensures
        ({
            let created = create_outcome(c, tag, data1).1.my_account;
            let s = SlotView { access, storage: created.storage };
            &&& update_outcome(s, tag, data2).0 == Ok::<(), StoreError>(())
            &&& stored_data(tag, update_outcome(s, tag, data2).1) == Some(data2)
            &&& update_outcome(s, tag, data2).1.storage == Some(record_bytes(tag, data2))
        }),
{
    lemma_record_round_trip(tag, data1);
    lemma_record_round_trip(tag, data2);
    let b = record_bytes(tag, data1);
    assert(overwrite_field(tag, b, data2) =~= record_bytes(tag, data2));
}

/// Updating a slot that was never created fails with `UninitializedRecord`
/// and leaves it unallocated.
pub proof fn lemma_update_uncreated(s: SlotView, tag: Seq<u8>, data: u64)
    requires
        s.storage is None,
    ensures
        update_outcome(s, tag, data).0 == Err::<(), StoreError>(StoreError::UninitializedRecord),
        update_outcome(s, tag, data).1 == s,
        update_outcome(s, tag, data).1.storage is None,
{
}

/// Updating a record without write access fails with `NotWritable` and keeps
/// the stored value.
pub proof fn lemma_update_read_only(s: SlotView, tag: Seq<u8>, data: u64)
    requires
        s.access == AccessMode::ReadOnly,
        stored_data(tag, s) is Some,
    ensures
        update_outcome(s, tag, data).0 == Err::<(), StoreError>(StoreError::NotWritable),
        update_outcome(s, tag, data).1 == s,
        stored_data(tag, update_outcome(s, tag, data).1) == stored_data(tag, s),
{
}

/// Updating twice with the same value gives the result and state of updating once.
pub proof fn lemma_update_idempotent(s: SlotView, tag: Seq<u8>, data: u64)
    requires
        tag.len() == 8,
    ensures
        update_outcome(update_outcome(s, tag, data).1, tag, data) == update_outcome(s, tag, data),
{
    match s.storage {
        None => {},
        Some(b) => {
            if update_outcome(s, tag, data).0 is Ok {
                let nb = overwrite_field(tag, b, data);
                lemma_le_bytes_index(data);
                assert(nb.subrange(0, 8) =~= b.subrange(0, 8));
                assert(nb.subrange(8, 16) =~= le_bytes(data));
                assert(overwrite_field(tag, nb, data) =~= nb);
            }
        },
    }
}

/// A failed operation leaves the payer and the slot as they were.
pub proof fn lemma_failure_changes_nothing(c: InitializeView, s: SlotView, tag: Seq<u8>, data: u64)
    ensures
        create_outcome(c, tag, data).0 is Err ==> create_outcome(c, tag, data).1 == c,
        update_outcome(s, tag, data).0 is Err ==> update_outcome(s, tag, data).1 == s,
{
}

} // verus!
