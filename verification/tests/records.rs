use zk_storage::decimal::decimal_string;
use zk_storage::pubkey::bytes32_eq;
use zk_storage::{
    create_batch, create_storage, AccountData, BatchStorage, ErrorCode, Ledger, Pubkey,
    ZKStorage,
};

fn record_owner() -> Pubkey {
    Pubkey::new_from_array([0x21; 32])
}

fn record_stranger() -> Pubkey {
    Pubkey::new_from_array([0x22; 32])
}

#[test]
fn new_record_holds_nothing() {
    let record = ZKStorage::new(record_owner(), "doc".to_string(), 254);
    assert_eq!(record.authority, record_owner());
    assert_eq!(record.seed_name, "doc");
    assert_eq!(record.commitment, [0u8; 32]);
    assert_eq!(record.metadata, "");
    assert_eq!(record.timestamp, 0);
    assert_eq!(record.bump, 254);
    assert!(record.is_initialized);
    assert_eq!(record.copy(), record);
}

#[test]
fn record_store_overwrites_three_fields() {
    let mut record = ZKStorage::new(record_owner(), "doc".to_string(), 254);
    assert_eq!(record.store(&record_owner(), [7u8; 32], "meta".to_string(), 1234), Ok(()));
    assert_eq!(record.commitment, [7u8; 32]);
    assert_eq!(record.metadata, "meta");
    assert_eq!(record.timestamp, 1234);
    assert_eq!(record.authority, record_owner());
    assert_eq!(record.seed_name, "doc");
    assert_eq!(record.bump, 254);
    assert!(record.is_initialized);
}

#[test]
fn record_store_rejections_change_nothing() {
    let mut record = ZKStorage::new(record_owner(), "doc".to_string(), 254);
    assert_eq!(record.store(&record_owner(), [7u8; 32], "meta".to_string(), 1234), Ok(()));
    let before = record.clone();
    assert_eq!(
        record.store(&record_stranger(), [8u8; 32], "x".to_string(), 1),
        Err(ErrorCode::Unauthorized)
    );
    assert_eq!(
        record.store(&record_owner(), [8u8; 32], "x".repeat(501), 1),
        Err(ErrorCode::MetadataTooLong)
    );
    assert_eq!(
        record.store_merkle_root(&record_stranger(), [8u8; 32], 2, "x".to_string(), 1),
        Err(ErrorCode::Unauthorized)
    );
    assert_eq!(
        record.store_merkle_root(&record_owner(), [8u8; 32], 2, "x".repeat(501), 1),
        Err(ErrorCode::MetadataTooLong)
    );
    assert_eq!(record, before);
}

#[test]
fn uninitialized_record_takes_no_store_and_no_opening() {
    let mut record = ZKStorage::new(record_owner(), "doc".to_string(), 254);
    record.is_initialized = false;
    let before = record.clone();
    assert_eq!(
        record.store(&record_owner(), [8u8; 32], "x".to_string(), 1),
        Err(ErrorCode::StorageNotInitialized)
    );
    assert_eq!(
        record.store_merkle_root(&record_owner(), [8u8; 32], 1, "x".to_string(), 1),
        Err(ErrorCode::StorageNotInitialized)
    );
    assert_eq!(record.verify("a", "b", "c"), Err(ErrorCode::StorageNotInitialized));
    assert_eq!(record.check_opening(&[0u8; 32]), Err(ErrorCode::StorageNotInitialized));
    // The caller is judged first, then the metadata, then the record.
    assert_eq!(
        record.store(&record_stranger(), [8u8; 32], "x".repeat(501), 1),
        Err(ErrorCode::Unauthorized)
    );
    assert_eq!(
        record.store(&record_owner(), [8u8; 32], "x".repeat(501), 1),
        Err(ErrorCode::MetadataTooLong)
    );
    assert_eq!(record, before);
}

#[test]
fn uninitialized_record_in_a_ledger_is_not_initialized() {
    let mut record = ZKStorage::new(record_owner(), "doc".to_string(), 254);
    record.is_initialized = false;
    let mut ledger = Ledger::new(Pubkey::new_from_array([9u8; 32]));
    let address = Pubkey::new_from_array([0x31; 32]);
    ledger.put(address, AccountData::Storage(record));
    let ctx = zk_storage::VerifyCommitment { storage: address, authority: record_owner() };
    assert_eq!(
        zk_storage::verify_commitment(
            &ledger,
            &ctx,
            "a".to_string(),
            "b".to_string(),
            "c".to_string()
        ),
        Err(ErrorCode::StorageNotInitialized)
    );
    let store = zk_storage::StoreCommitment { storage: address, authority: record_owner() };
    assert_eq!(
        zk_storage::store_commitment(&mut ledger, &store, [1u8; 32], "m".to_string(), 1),
        Err(ErrorCode::StorageNotInitialized)
    );
}

#[test]
fn check_opening_compares_every_byte() {
    let mut record = ZKStorage::new(record_owner(), "doc".to_string(), 254);
    let mut commitment = [0u8; 32];
    for (i, byte) in commitment.iter_mut().enumerate() {
        *byte = i as u8;
    }
    assert_eq!(record.store(&record_owner(), commitment, String::new(), 0), Ok(()));
    assert_eq!(record.check_opening(&commitment), Ok(()));
    for i in 0..32 {
        let mut other = commitment;
        other[i] ^= 0x80;
        assert_eq!(record.check_opening(&other), Err(ErrorCode::InvalidCommitment));
    }
}

#[test]
fn record_verify_hashes_texts_and_timestamp() {
    // SHA-256 of "abc", written out: data "a", secret "b", nonce "", and no
    // timestamp would give it, but the timestamp is always hashed.
    let of_abc: [u8; 32] = [
        186, 120, 22, 191, 143, 1, 207, 234, 65, 65, 64, 222, 93, 174, 34, 35, 176, 3, 97, 163,
        150, 23, 122, 156, 180, 16, 255, 97, 242, 0, 21, 173,
    ];
    // SHA-256 of "hello2s3cr3tn0nce0", written out.
    let of_hello2: [u8; 32] = [
        19, 182, 181, 17, 35, 202, 215, 170, 210, 200, 81, 116, 16, 241, 145, 52, 201, 83, 35,
        190, 134, 168, 238, 237, 234, 53, 139, 22, 206, 132, 188, 250,
    ];
    let mut record = ZKStorage::new(record_owner(), "doc".to_string(), 254);
    assert_eq!(record.store(&record_owner(), of_abc, String::new(), 0), Ok(()));
    assert_eq!(record.verify("a", "b", "c"), Err(ErrorCode::InvalidCommitment));
    assert_eq!(record.verify("a", "b", ""), Err(ErrorCode::InvalidCommitment));
    assert_eq!(record.store(&record_owner(), of_hello2, String::new(), 0), Ok(()));
    assert_eq!(record.verify("hello2", "s3cr3t", "n0nce"), Ok(()));
    assert_eq!(record.verify("hello", "s3cr3t", "n0nce"), Err(ErrorCode::InvalidCommitment));
}

#[test]
fn merkle_metadata_text() {
    let mut record = ZKStorage::new(record_owner(), "doc".to_string(), 254);
    assert_eq!(
        record.store_merkle_root(&record_owner(), [5u8; 32], 4, "batchA".to_string(), 777),
        Ok(())
    );
    assert_eq!(record.metadata, "merkle_leaves:4,batchA");
    assert_eq!(record.timestamp, 777);
    assert_eq!(record.commitment, [5u8; 32]);
    assert_eq!(
        record.store_merkle_root(&record_owner(), [5u8; 32], 1000, "é,ü".to_string(), 778),
        Ok(())
    );
    assert_eq!(record.metadata, "merkle_leaves:1000,é,ü");
}

#[test]
fn decimal_rendering() {
    assert_eq!(decimal_string(0), "0");
    assert_eq!(decimal_string(7), "7");
    assert_eq!(decimal_string(9), "9");
    assert_eq!(decimal_string(10), "10");
    assert_eq!(decimal_string(101), "101");
    assert_eq!(decimal_string(1234567890), "1234567890");
    assert_eq!(decimal_string(u64::MAX), "18446744073709551615");
    for n in [0u64, 5, 19, 200, 65_535, 4_294_967_295, 1_700_000_000_000] {
        assert_eq!(decimal_string(n), n.to_string());
    }
}

#[test]
fn pubkey_equality_is_on_all_bytes() {
    let a = Pubkey::new_from_array([3u8; 32]);
    let mut bytes = a.to_bytes();
    assert_eq!(Pubkey::new_from_array(bytes), a);
    for i in 0..32 {
        bytes = [3u8; 32];
        bytes[i] = 4;
        assert_ne!(Pubkey::new_from_array(bytes), a);
        assert!(!bytes32_eq(&bytes, &a.to_bytes()));
    }
    assert!(bytes32_eq(&[3u8; 32], &a.to_bytes()));
}

#[test]
fn create_storage_at_a_given_place() {
    let mut ledger = Ledger::new(Pubkey::new_from_array([9u8; 32]));
    let place = Pubkey::new_from_array([0x41; 32]);
    assert_eq!(
        create_storage(&mut ledger, None, record_owner(), "doc".to_string()),
        Err(ErrorCode::AddressDerivationExhausted)
    );
    assert_eq!(ledger.len(), 0);
    assert_eq!(
        create_storage(&mut ledger, Some((place, 250)), record_owner(), "doc".to_string()),
        Ok(())
    );
    assert_eq!(
        ledger.storage(&place),
        Some(&ZKStorage::new(record_owner(), "doc".to_string(), 250))
    );
    assert_eq!(
        create_storage(&mut ledger, Some((place, 250)), record_stranger(), "other".to_string()),
        Err(ErrorCode::AddressAlreadyInUse)
    );
    assert_eq!(
        ledger.storage(&place),
        Some(&ZKStorage::new(record_owner(), "doc".to_string(), 250))
    );
    assert_eq!(ledger.len(), 1);
}

#[test]
fn create_batch_at_a_given_place() {
    let mut ledger = Ledger::new(Pubkey::new_from_array([9u8; 32]));
    ledger.set_unix_timestamp(31337);
    let place = Pubkey::new_from_array([0x42; 32]);
    assert_eq!(
        create_batch(&mut ledger, None, record_owner(), [1u8; 32], 8, "b".to_string()),
        Err(ErrorCode::AddressDerivationExhausted)
    );
    assert_eq!(
        create_batch(&mut ledger, Some((place, 253)), record_owner(), [1u8; 32], 8, "b".to_string()),
        Ok(())
    );
    let expected = BatchStorage {
        authority: record_owner(),
        batch_root: [1u8; 32],
        batch_size: 8,
        metadata: "b".to_string(),
        timestamp: 31337,
        bump: 253,
    };
    assert_eq!(ledger.batch(&place), Some(&expected));
    assert_eq!(ledger.batch(&place).map(|batch| batch.copy()), Some(expected.clone()));
    assert!(ledger.storage(&place).is_none());
    // One address space: a commitment record cannot take the place of a batch.
    assert_eq!(
        create_storage(&mut ledger, Some((place, 253)), record_owner(), "doc".to_string()),
        Err(ErrorCode::AddressAlreadyInUse)
    );
    assert_eq!(
        create_batch(&mut ledger, Some((place, 253)), record_owner(), [1u8; 32], 8, "b".to_string()),
        Err(ErrorCode::AddressAlreadyInUse)
    );
    assert_eq!(ledger.batch(&place), Some(&expected));
}

#[test]
fn ledger_put_and_get() {
    let program = Pubkey::new_from_array([9u8; 32]);
    let mut ledger = Ledger::new(program);
    assert_eq!(ledger.program_id(), program);
    assert_eq!(ledger.unix_timestamp(), 0);
    assert_eq!(ledger.len(), 0);
    let here = Pubkey::new_from_array([0x51; 32]);
    let there = Pubkey::new_from_array([0x52; 32]);
    assert!(ledger.account(&here).is_none());
    let first = AccountData::Storage(ZKStorage::new(record_owner(), "one".to_string(), 255));
    let second = AccountData::Storage(ZKStorage::new(record_owner(), "two".to_string(), 254));
    ledger.put(here, first.copy());
    ledger.put(there, second.copy());
    assert_eq!(ledger.account(&here), Some(&first));
    assert_eq!(ledger.account(&there), Some(&second));
    assert_eq!(ledger.len(), 2);
    ledger.put(here, second.copy());
    assert_eq!(ledger.account(&here), Some(&second));
    assert_eq!(ledger.account(&there), Some(&second));
    assert_eq!(ledger.len(), 2);
    ledger.set_unix_timestamp(5);
    assert_eq!(ledger.unix_timestamp(), 5);
    assert_eq!(ledger.account(&here), Some(&second));
}

#[test]
fn error_messages() {
    assert_eq!(ErrorCode::InvalidCommitment.message(), "Invalid commitment - verification failed");
    assert_eq!(ErrorCode::MetadataTooLong.message(), "Metadata exceeds maximum length");
    assert_eq!(
        ErrorCode::Unauthorized.message(),
        "Unauthorized access - not the account authority"
    );
    assert_eq!(ErrorCode::StorageNotInitialized.message(), "Storage account not initialized");
    assert_eq!(ErrorCode::SeedNameTooLong.message(), "Seed name too long (max 50 characters)");
    assert_eq!(ErrorCode::AddressAlreadyInUse.message(), "Address already in use");
    assert_eq!(ErrorCode::AddressDerivationExhausted.message(), "No bump seed gives an address");
}
