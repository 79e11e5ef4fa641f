//! Record slots, the access each instruction grants over them, and the two
//! operations: create a record in an empty slot, and overwrite its field.
use vstd::prelude::*;
use crate::codec::{le_bytes, lemma_le_bytes_index};
use crate::record::{
    account_discriminator, decode, record_bytes, MyAccount, DISCRIMINATOR_LEN,
};

verus! {

/// What an instruction may do with a slot it is handed.
#[derive(Clone, Copy, Debug, PartialEq, Eq, Structural)]
pub enum AccessMode {
    /// Read only.
    ReadOnly,
    /// Marked for mutation: changes persist.
    Writable,
    /// Marked for creation; creation implies mutation.
    Init,
}

/// Whether `mode` lets an instruction change the slot.
pub open spec fn is_writable(mode: AccessMode) -> bool {
    mode != AccessMode::ReadOnly
}

/// Why an operation failed. A failed operation changes nothing.
#[derive(Clone, Copy, Debug, PartialEq, Eq, Structural)]
pub enum StoreError {
    /// The slot already holds storage.
    AlreadyInitialized,
    /// The payer cannot cover the cost of the storage.
    InsufficientFunds,
    /// The slot was not marked for mutation.
    NotWritable,
    /// The slot has never been created.
    UninitializedRecord,
    /// Any other authorization or layout failure.
    HostRejected,
}

/// A slot as the contracts see it: its access mode and, once allocated, its bytes.
pub struct SlotView {
    pub access: AccessMode,
    pub storage: Option<Seq<u8>>,
}

/// A storage slot handed to an instruction, with the access granted over it.
/// `storage` is `None` while nothing is allocated there.
#[derive(Debug)]
pub struct RecordSlot {
    pub access: AccessMode,
    pub storage: Option<Vec<u8>>,
}

impl View for RecordSlot {
    type V = SlotView;

    open spec fn view(&self) -> SlotView {
        SlotView {
            access: self.access,
            storage: match self.storage {
                Some(b) => Some(b@),
                None => None,
            },
        }
    }
}

/// The identity that funds a new record.
#[derive(Clone, Copy, Debug, PartialEq, Eq, Structural)]
pub struct Payer {
    pub is_signer: bool,
    pub is_writable: bool,
    pub lamports: u64,
}

/// The host's allocator, as the program sees it: what it charges for a record's space.
#[derive(Clone, Copy, Debug, PartialEq, Eq, Structural)]
pub struct SystemProgram {
    pub rent_exempt_minimum: u64,
}

/// The references that creating a record takes.
#[derive(Debug)]
pub struct Initialize {
    pub my_account: RecordSlot,
    pub user: Payer,
    pub system_program: SystemProgram,
}

/// `Initialize` as the contracts see it.
pub struct InitializeView {
    pub my_account: SlotView,
    pub user: Payer,
    pub system_program: SystemProgram,
}

impl View for Initialize {
    type V = InitializeView;

    open spec fn view(&self) -> InitializeView {
        InitializeView {
            my_account: self.my_account@,
            user: self.user,
            system_program: self.system_program,
        }
    }
}

/// The reference that updating a record takes.
#[derive(Debug)]
pub struct Update {
    pub my_account: RecordSlot,
}

/// The field that slot `s` holds for record type `tag`, if it holds a record.
pub open spec fn stored_data(tag: Seq<u8>, s: SlotView) -> Option<u64> {
    match s.storage {
        Some(b) => match decode(tag, b) {
            Ok(d) => Some(d),
            Err(_) => None,
        },
        None => None,
    }
}

/// Result and new state of creating a record with field `data` and type tag
/// `tag`. The checks come in this order: access, an empty slot, funds.
pub open spec fn create_outcome(c: InitializeView, tag: Seq<u8>, data: u64) -> (
    Result<(), StoreError>,
    InitializeView,
) {
    if c.my_account.access != AccessMode::Init || !c.user.is_signer || !c.user.is_writable {
        (Err(StoreError::HostRejected), c)
    } else if c.my_account.storage is Some {
        (Err(StoreError::AlreadyInitialized), c)
    } else if c.user.lamports < c.system_program.rent_exempt_minimum {
        (Err(StoreError::InsufficientFunds), c)
    } else {
        (
            Ok(()),
            InitializeView {
                my_account: SlotView {
                    access: c.my_account.access,
                    storage: Some(record_bytes(tag, data)),
                },
                user: Payer {
                    is_signer: c.user.is_signer,
                    is_writable: c.user.is_writable,
                    lamports: (c.user.lamports - c.system_program.rent_exempt_minimum) as u64,
                },
                system_program: c.system_program,
            },
        )
    }
}

/// `b` with the field after the type tag replaced by `data`; every other
/// byte is kept.
pub open spec fn overwrite_field(tag: Seq<u8>, b: Seq<u8>, data: u64) -> Seq<u8> {
    b.subrange(0, tag.len() as int) + le_bytes(data) + b.subrange(tag.len() + 8int, b.len() as int)
}

/// Result and new state of setting the field of the record in `s` to `data`.
/// The checks come in this order: a created slot, a record of type `tag`,
/// write access.
pub open spec fn update_outcome(s: SlotView, tag: Seq<u8>, data: u64) -> (
    Result<(), StoreError>,
    SlotView,
) {
    match s.storage {
        None => (Err(StoreError::UninitializedRecord), s),
        Some(b) => if decode(tag, b) is Err {
            (Err(StoreError::HostRejected), s)
        } else if !is_writable(s.access) {
            (Err(StoreError::NotWritable), s)
        } else {
            (Ok(()), SlotView { access: s.access, storage: Some(overwrite_field(tag, b, data)) })
        },
    }
}

/// Writes the little-endian bytes of `v` over `b[at..at + 8]`.
fn write_le_u64_at(b: &mut Vec<u8>, at: usize, v: u64)
    requires
        at + 8 <= old(b)@.len(),
    ensures
        final(b)@ == old(b)@.subrange(0, at as int) + le_bytes(v) + old(b)@.subrange(
            at + 8int,
            old(b)@.len() as int,
        ),
{
    let n: usize = b.len();
    let mut k: usize = 0;
    while k < 8
        invariant
            k <= 8,
            n == b@.len(),
            at + 8 <= old(b)@.len(),
            b@.len() == old(b)@.len(),
            forall|i: int| 0 <= i < at ==> b@[i] == old(b)@[i],
            forall|i: int| at + 8 <= i < b@.len() ==> b@[i] == old(b)@[i],
            forall|i: int| 0 <= i < k ==> b@[at + i] == le_bytes(v)[i],
        decreases 8 - k,
    {
        let byte = (#[verifier::truncate] (((v >> (8 * k as u64)) & 0xff) as u8));
        proof {
            lemma_le_bytes_index(v);
        }
        b.set(at + k, byte);
        k = k + 1;
    }
    assert(b@ =~= old(b)@.subrange(0, at as int) + le_bytes(v) + old(b)@.subrange(
        at + 8int,
        old(b)@.len() as int,
    ));
}

impl RecordSlot {
    /// The field of the record of type `tag` held here, if one is.
    pub fn read(&self, tag: &[u8]) -> (r: Option<u64>)
        ensures
            r == stored_data(tag@, self@),
    {
        match &self.storage {
            Some(b) => match MyAccount::from_bytes(b.as_slice(), tag) {
                Ok(a) => Some(a.data),
                Err(_) => None,
            },
            None => None,
        }
    }
}

/// Creates a record of type `tag` holding `data` in `ctx.my_account`, paid by
/// `ctx.user`.
pub fn initialize_with_tag(ctx: &mut Initialize, tag: &[u8], data: u64) -> (r: Result<
    (),
    StoreError,
>)
    requires
        tag@.len() == DISCRIMINATOR_LEN,
    ensures
        (r, final(ctx)@) == create_outcome(old(ctx)@, tag@, data),
{
    match ctx.my_account.access {
        AccessMode::Init => {},
        _ => {
            return Err(StoreError::HostRejected);
        },
    }
    if !ctx.user.is_signer || !ctx.user.is_writable {
        return Err(StoreError::HostRejected);
    }
    if ctx.my_account.storage.is_some() {
        return Err(StoreError::AlreadyInitialized);
    }
    let rent = ctx.system_program.rent_exempt_minimum;
    if ctx.user.lamports < rent {
        return Err(StoreError::InsufficientFunds);
    }
    ctx.user.lamports = ctx.user.lamports - rent;
    let record = MyAccount { data };
    ctx.my_account.storage = Some(record.to_bytes(tag));
    Ok(())
}

/// Sets the field of the record of type `tag` in `ctx.my_account` to `data`.
pub fn update_with_tag(ctx: &mut Update, tag: &[u8], data: u64) -> (r: Result<(), StoreError>)
    requires
        tag@.len() == DISCRIMINATOR_LEN,
    ensures
        (r, final(ctx).my_account@) == update_outcome(old(ctx).my_account@, tag@, data),
{
    let decoded = match &ctx.my_account.storage {
        None => {
            return Err(StoreError::UninitializedRecord);
        },
        Some(b) => MyAccount::from_bytes(b.as_slice(), tag),
    };
    if decoded.is_err() {
        return Err(StoreError::HostRejected);
    }
    match ctx.my_account.access {
        AccessMode::ReadOnly => {
            return Err(StoreError::NotWritable);
        },
        _ => {},
    }
    let mut b = ctx.my_account.storage.take().unwrap();
    write_le_u64_at(&mut b, DISCRIMINATOR_LEN, data);
    ctx.my_account.storage = Some(b);
    Ok(())
}

/// Creates the record in `ctx.my_account` with field `data`.
pub fn initialize(ctx: &mut Initialize, data: u64) -> (r: Result<(), StoreError>)
    ensures
        (r, final(ctx)@) == create_outcome(old(ctx)@, account_discriminator(), data),
{
    let tag = MyAccount::discriminator();
    initialize_with_tag(ctx, tag.as_slice(), data)
}

/// Sets the field of the record in `ctx.my_account` to `data`.
pub fn update(ctx: &mut Update, data: u64) -> (r: Result<(), StoreError>)
    ensures
        (r, final(ctx).my_account@) == update_outcome(
            old(ctx).my_account@,
            account_discriminator(),
            data,
        ),
{
    let tag = MyAccount::discriminator();
    update_with_tag(ctx, tag.as_slice(), data)
}

} // verus!
