use intro_to_anchor::{
    initialize, initialize_with_tag, update, update_with_tag, AccessMode, DecodeError,
    Initialize, MyAccount, Payer, RecordSlot, StoreError, SystemProgram, Update,
};

const TAG: [u8; 8] = [1, 2, 3, 4, 5, 6, 7, 8];

fn fresh_ctx(lamports: u64, rent: u64) -> Initialize {
    Initialize {
        my_account: RecordSlot { access: AccessMode::Init, storage: None },
        user: Payer { is_signer: true, is_writable: true, lamports },
        system_program: SystemProgram { rent_exempt_minimum: rent },
    }
}

fn stored(tag: &[u8], data: u64) -> Vec<u8> {
    let mut b = tag.to_vec();
    b.extend_from_slice(&data.to_le_bytes());
    b
}

#[test]
fn discriminator_is_digest_prefix_of_account_name() {
    assert_eq!(MyAccount::discriminator(), vec![246, 28, 6, 87, 251, 45, 50, 42]);
}

#[test]
fn to_bytes_is_tag_then_little_endian_field() {
    let a = MyAccount { data: 0x0102_0304_0506_0708 };
    assert_eq!(a.to_bytes(&TAG), vec![1, 2, 3, 4, 5, 6, 7, 8, 8, 7, 6, 5, 4, 3, 2, 1]);
}

#[test]
fn from_bytes_reads_back_and_ignores_trailing_bytes() {
    let mut b = stored(&TAG, 77);
    assert_eq!(MyAccount::from_bytes(&b, &TAG), Ok(MyAccount { data: 77 }));
    b.push(9);
    assert_eq!(MyAccount::from_bytes(&b, &TAG), Ok(MyAccount { data: 77 }));
}

#[test]
fn from_bytes_errors() {
    assert_eq!(MyAccount::from_bytes(&[1, 2, 3], &TAG), Err(DecodeError::DiscriminatorNotFound));
    let mut wrong = stored(&TAG, 5);
    wrong[0] = 0;
    assert_eq!(MyAccount::from_bytes(&wrong, &TAG), Err(DecodeError::DiscriminatorMismatch));
    let short = stored(&TAG, 5)[..12].to_vec();
    assert_eq!(MyAccount::from_bytes(&short, &TAG), Err(DecodeError::DidNotDeserialize));
}

#[test]
fn create_on_fresh_slot_stores_value() {
    for data in [0u64, 1, 42, u64::MAX] {
        let mut ctx = fresh_ctx(100, 30);
        assert_eq!(initialize(&mut ctx, data), Ok(()));
        let tag = MyAccount::discriminator();
        assert_eq!(ctx.my_account.read(&tag), Some(data));
        assert_eq!(ctx.my_account.storage, Some(stored(&tag, data)));
        assert_eq!(ctx.my_account.storage.as_ref().map(|b| b.len()), Some(16));
        assert_eq!(ctx.user.lamports, 70);
    }
}

#[test]
fn create_twice_fails_and_keeps_first_value() {
    let mut ctx = fresh_ctx(100, 30);
    assert_eq!(initialize(&mut ctx, 11), Ok(()));
    assert_eq!(initialize(&mut ctx, 22), Err(StoreError::AlreadyInitialized));
    assert_eq!(ctx.my_account.read(&MyAccount::discriminator()), Some(11));
    assert_eq!(ctx.user.lamports, 70);
}

#[test]
fn update_after_create_last_write_wins() {
    let mut ctx = fresh_ctx(100, 30);
    assert_eq!(initialize(&mut ctx, 11), Ok(()));
    let mut u = Update {
        my_account: RecordSlot { access: AccessMode::Writable, storage: ctx.my_account.storage },
    };
    assert_eq!(update(&mut u, 22), Ok(()));
    assert_eq!(u.my_account.read(&MyAccount::discriminator()), Some(22));
    assert_eq!(u.my_account.storage, Some(stored(&MyAccount::discriminator(), 22)));
}

#[test]
fn update_uncreated_slot_fails() {
    for access in [AccessMode::ReadOnly, AccessMode::Writable, AccessMode::Init] {
        let mut u = Update { my_account: RecordSlot { access, storage: None } };
        assert_eq!(update(&mut u, 5), Err(StoreError::UninitializedRecord));
        assert_eq!(u.my_account.storage, None);
    }
}

#[test]
fn update_without_write_access_fails() {
    let mut u = Update {
        my_account: RecordSlot { access: AccessMode::ReadOnly, storage: Some(stored(&TAG, 3)) },
    };
    assert_eq!(update_with_tag(&mut u, &TAG, 9), Err(StoreError::NotWritable));
    assert_eq!(u.my_account.read(&TAG), Some(3));
}

#[test]
fn update_twice_same_value_equals_once() {
    let mut once = Update {
        my_account: RecordSlot { access: AccessMode::Writable, storage: Some(stored(&TAG, 3)) },
    };
    let mut twice = Update {
        my_account: RecordSlot { access: AccessMode::Writable, storage: Some(stored(&TAG, 3)) },
    };
    assert_eq!(update_with_tag(&mut once, &TAG, 8), Ok(()));
    assert_eq!(update_with_tag(&mut twice, &TAG, 8), Ok(()));
    assert_eq!(update_with_tag(&mut twice, &TAG, 8), Ok(()));
    assert_eq!(once.my_account.storage, twice.my_account.storage);
    assert_eq!(once.my_account.read(&TAG), Some(8));
}

#[test]
fn update_keeps_bytes_after_field() {
    let mut b = stored(&TAG, 3);
    b.extend_from_slice(&[0xaa, 0xbb]);
    let mut u = Update { my_account: RecordSlot { access: AccessMode::Init, storage: Some(b) } };
    assert_eq!(update_with_tag(&mut u, &TAG, 0x0102), Ok(()));
    let mut expected = stored(&TAG, 0x0102);
    expected.extend_from_slice(&[0xaa, 0xbb]);
    assert_eq!(u.my_account.storage, Some(expected));
}

#[test]
fn update_of_other_record_type_is_rejected() {
    let other = [9u8; 8];
    let mut u = Update {
        my_account: RecordSlot { access: AccessMode::Writable, storage: Some(stored(&other, 3)) },
    };
    assert_eq!(update_with_tag(&mut u, &TAG, 4), Err(StoreError::HostRejected));
    assert_eq!(u.my_account.storage, Some(stored(&other, 3)));
}

#[test]
fn create_rejects_missing_authorization() {
    let mut ctx = fresh_ctx(100, 30);
    ctx.my_account.access = AccessMode::Writable;
    assert_eq!(initialize_with_tag(&mut ctx, &TAG, 1), Err(StoreError::HostRejected));
    let mut ctx = fresh_ctx(100, 30);
    ctx.user.is_signer = false;
    assert_eq!(initialize_with_tag(&mut ctx, &TAG, 1), Err(StoreError::HostRejected));
    let mut ctx = fresh_ctx(100, 30);
    ctx.user.is_writable = false;
    assert_eq!(initialize_with_tag(&mut ctx, &TAG, 1), Err(StoreError::HostRejected));
    assert_eq!(ctx.my_account.storage, None);
    assert_eq!(ctx.user.lamports, 100);
}

#[test]
fn create_with_insufficient_funds_fails() {
    let mut ctx = fresh_ctx(29, 30);
    assert_eq!(initialize_with_tag(&mut ctx, &TAG, 1), Err(StoreError::InsufficientFunds));
    assert_eq!(ctx.my_account.storage, None);
    assert_eq!(ctx.user.lamports, 29);
    let mut exact = fresh_ctx(30, 30);
    assert_eq!(initialize_with_tag(&mut exact, &TAG, 1), Ok(()));
    assert_eq!(exact.user.lamports, 0);
}
