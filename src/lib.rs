//! A single persistent record holding one `u64`, created once and then
//! overwritten, under access checks that a host runtime would enforce.
//!
//! A stored record is an eight-byte type tag, the first bytes of the SHA-256
//! digest of `account:MyAccount`, followed by the field in little-endian order.
pub mod codec;
pub mod laws;
pub mod record;
pub mod store;

pub use record::{DecodeError, MyAccount};
pub use store::{
    initialize, initialize_with_tag, update, update_with_tag, AccessMode, Initialize, Payer,
    RecordSlot, StoreError, SystemProgram, Update,
};
