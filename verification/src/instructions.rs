use crate::address::{
    batch_address, batch_address_with_bump, derived, find_batch_address, find_storage_address,
    storage_address, storage_address_with_bump,
};
use crate::error::ErrorCode;
use crate::ledger::{
    found_storage, storage_at, with_account, AccountData, AccountRecord, Ledger, LedgerState,
};
use crate::pubkey::Pubkey;
use crate::state::{
    after_store, fresh_record, merkle_metadata, store_outcome, utf8_len, verify_outcome,
    BatchRecord, BatchStorage, StorageRecord, ZKStorage, MAX_BATCH_METADATA_LEN,
    MAX_SEED_NAME_LEN,
};
use vstd::prelude::*;
use vstd::string::*;

verus! {

/// Who takes part in `initialize_storage`.
#[derive(Clone, Copy, Debug)]
pub struct InitializeStorage {
    /// The authenticated caller, who becomes the authority of the new record.
    pub authority: Pubkey,
}

/// Who and what takes part in `store_commitment`.
#[derive(Clone, Copy, Debug)]
pub struct StoreCommitment {
    /// The address of the commitment record.
    pub storage: Pubkey,
    /// The authenticated caller.
    pub authority: Pubkey,
}

/// Who and what takes part in `update_commitment`.
#[derive(Clone, Copy, Debug)]
pub struct UpdateCommitment {
    /// The address of the commitment record.
    pub storage: Pubkey,
    /// The authenticated caller.
    pub authority: Pubkey,
}

/// Who and what takes part in `verify_commitment`.
#[derive(Clone, Copy, Debug)]
pub struct VerifyCommitment {
    /// The address of the commitment record.
    pub storage: Pubkey,
    /// The authenticated caller, who may be anyone.
    pub authority: Pubkey,
}

/// Who and what takes part in `store_merkle_root`.
#[derive(Clone, Copy, Debug)]
pub struct StoreMerkleRoot {
    /// The address of the commitment record.
    pub storage: Pubkey,
    /// The authenticated caller.
    pub authority: Pubkey,
}

/// Who takes part in `store_batch`.
#[derive(Clone, Copy, Debug)]
pub struct StoreBatch {
    /// The authenticated caller, who becomes the authority of the new record.
    pub authority: Pubkey,
}

/// Whether a new record can be put where derivation said: there must be an
/// address, and nothing may stand there yet.
pub open spec fn allocation_outcome(ledger: LedgerState, place: Option<(Seq<u8>, u8)>) -> Result<
    (),
    ErrorCode,
> {
    match place {
        None => Err(ErrorCode::AddressDerivationExhausted),
        Some((address, bump)) => if ledger.accounts.contains_key(address) {
            Err(ErrorCode::AddressAlreadyInUse)
        } else {
            Ok(())
        },
    }
}

/// `ledger` after an attempt to create a commitment record at `place`.
pub open spec fn after_create_storage(
    ledger: LedgerState,
    place: Option<(Seq<u8>, u8)>,
    authority: Seq<u8>,
    seed_name: Seq<char>,
) -> LedgerState {
    match place {
        Some((address, bump)) => if allocation_outcome(ledger, place) is Ok {
            with_account(
                ledger,
                address,
                AccountRecord::Storage(fresh_record(authority, seed_name, bump)),
            )
        } else {
            ledger
        },
        None => ledger,
    }
}

/// The batch record that `store_batch` writes.
pub open spec fn batch_record(
    authority: Seq<u8>,
    batch_root: Seq<u8>,
    batch_size: u32,
    metadata: Seq<char>,
    timestamp: u64,
    bump: u8,
) -> BatchRecord {
    BatchRecord { authority, batch_root, batch_size, metadata, timestamp, bump }
}

/// `ledger` after an attempt to create a batch record at `place`. The record
/// is stamped with the ledger's time.
pub open spec fn after_create_batch(
    ledger: LedgerState,
    place: Option<(Seq<u8>, u8)>,
    authority: Seq<u8>,
    batch_root: Seq<u8>,
    batch_size: u32,
    metadata: Seq<char>,
) -> LedgerState {
    match place {
        Some((address, bump)) => if allocation_outcome(ledger, place) is Ok {
            with_account(
                ledger,
                address,
                AccountRecord::Batch(
                    batch_record(
                        authority,
                        batch_root,
                        batch_size,
                        metadata,
                        ledger.unix_timestamp,
                        bump,
                    ),
                ),
            )
        } else {
            ledger
        },
        None => ledger,
    }
}

/// Where `initialize_storage` puts the record of `authority` under `seed_name`;
/// `None` where the name is too long or no address can be derived.
pub open spec fn storage_place(ledger: LedgerState, authority: Seq<u8>, seed_name: Seq<char>) -> Option<
    (Seq<u8>, u8),
> {
    if utf8_len(seed_name) > MAX_SEED_NAME_LEN {
        None
    } else {
        storage_address(ledger.program_id, seed_name, authority)
    }
}

/// Whether the bump seed that `initialize_storage` records gives the address
/// of the new record back without a search.
pub open spec fn bump_gives_storage_address(
    ledger: LedgerState,
    authority: Seq<u8>,
    seed_name: Seq<char>,
) -> bool {
    storage_place(ledger, authority, seed_name) matches Some((address, bump))
        && storage_address_with_bump(ledger.program_id, seed_name, authority, bump) == Some(
        address,
    )
}

/// How `initialize_storage` ends.
pub open spec fn initialize_storage_outcome(
    ledger: LedgerState,
    authority: Seq<u8>,
    seed_name: Seq<char>,
) -> Result<(), ErrorCode> {
    if utf8_len(seed_name) > MAX_SEED_NAME_LEN {
        Err(ErrorCode::SeedNameTooLong)
    } else {
        allocation_outcome(ledger, storage_place(ledger, authority, seed_name))
    }
}

/// `ledger` after `initialize_storage`.
pub open spec fn after_initialize_storage(
    ledger: LedgerState,
    authority: Seq<u8>,
    seed_name: Seq<char>,
) -> LedgerState {
    after_create_storage(
        ledger,
        storage_place(ledger, authority, seed_name),
        authority,
        seed_name,
    )
}

/// Where `store_batch` puts the record of `authority` for `batch_root`; `None`
/// where the metadata is too long or no address can be derived.
pub open spec fn batch_place(
    ledger: LedgerState,
    authority: Seq<u8>,
    batch_root: Seq<u8>,
    metadata: Seq<char>,
) -> Option<(Seq<u8>, u8)> {
    if utf8_len(metadata) > MAX_BATCH_METADATA_LEN {
        None
    } else {
        batch_address(ledger.program_id, batch_root, authority)
    }
}

/// Whether the bump seed that `store_batch` records gives the address of the
/// new record back without a search.
pub open spec fn bump_gives_batch_address(
    ledger: LedgerState,
    authority: Seq<u8>,
    batch_root: Seq<u8>,
    metadata: Seq<char>,
) -> bool {
    batch_place(ledger, authority, batch_root, metadata) matches Some((address, bump))
        && batch_address_with_bump(ledger.program_id, batch_root, authority, bump) == Some(
        address,
    )
}

/// How `store_batch` ends.
pub open spec fn store_batch_outcome(
    ledger: LedgerState,
    authority: Seq<u8>,
    batch_root: Seq<u8>,
    metadata: Seq<char>,
) -> Result<(), ErrorCode> {
    if utf8_len(metadata) > MAX_BATCH_METADATA_LEN {
        Err(ErrorCode::MetadataTooLong)
    } else {
        allocation_outcome(ledger, batch_place(ledger, authority, batch_root, metadata))
    }
}

/// `ledger` after `store_batch`.
pub open spec fn after_store_batch(
    ledger: LedgerState,
    authority: Seq<u8>,
    batch_root: Seq<u8>,
    batch_size: u32,
    metadata: Seq<char>,
) -> LedgerState {
    after_create_batch(
        ledger,
        batch_place(ledger, authority, batch_root, metadata),
        authority,
        batch_root,
        batch_size,
        metadata,
    )
}

/// How an attempt of `caller` to overwrite the record at `address` ends. Where
/// no commitment record stands, there is nothing initialized to write to.
pub open spec fn store_commitment_outcome(
    ledger: LedgerState,
    address: Seq<u8>,
    caller: Seq<u8>,
    metadata: Seq<char>,
) -> Result<(), ErrorCode> {
    match storage_at(ledger, address) {
        Some(record) => store_outcome(record, caller, metadata),
        None => Err(ErrorCode::StorageNotInitialized),
    }
}

/// `ledger` after an attempt to overwrite the record at `address` that ended
/// in `outcome`.
pub open spec fn after_store_commitment(
    ledger: LedgerState,
    address: Seq<u8>,
    outcome: Result<(), ErrorCode>,
    commitment: Seq<u8>,
    metadata: Seq<char>,
    timestamp: u64,
) -> LedgerState {
    match storage_at(ledger, address) {
        Some(record) => if outcome is Ok {
            with_account(
                ledger,
                address,
                AccountRecord::Storage(
                    after_store(record, outcome, commitment, metadata, timestamp),
                ),
            )
        } else {
            ledger
        },
        None => ledger,
    }
}

/// Whether `(data, secret, nonce)` opens the record at `address`.
pub open spec fn verify_commitment_outcome(
    ledger: LedgerState,
    address: Seq<u8>,
    data: Seq<char>,
    secret: Seq<char>,
    nonce: Seq<char>,
) -> Result<(), ErrorCode> {
    match storage_at(ledger, address) {
        Some(record) => verify_outcome(record, data, secret, nonce),
        None => Err(ErrorCode::StorageNotInitialized),
    }
}

/// The commitment record of `authority` under `seed_name`, if it exists.
pub open spec fn lookup_storage(ledger: LedgerState, seed_name: Seq<char>, authority: Seq<u8>) -> Option<
    StorageRecord,
> {
    match storage_address(ledger.program_id, seed_name, authority) {
        Some((address, bump)) => storage_at(ledger, address),
        None => None,
    }
}

/// Creates the commitment record of `authority` under `seed_name` at the
/// address `place` that was derived for it, with nothing committed yet.
///
/// Fails with `AddressDerivationExhausted` where there is no address, and with
/// `AddressAlreadyInUse` where a record already stands at it.
pub fn create_storage(
    ledger: &mut Ledger,
    place: Option<(Pubkey, u8)>,
    authority: Pubkey,
    seed_name: String,
) -> (result: Result<(), ErrorCode>)
    ensures
        result == allocation_outcome(old(ledger)@, derived(place)),
        final(ledger)@ == after_create_storage(
            old(ledger)@,
            derived(place),
            authority@,
            seed_name@,
        ),
{
    match place {
        None => Err(ErrorCode::AddressDerivationExhausted),
        Some((address, bump)) => {
            if ledger.account(&address).is_some() {
                return Err(ErrorCode::AddressAlreadyInUse);
            }
            ledger.put(address, AccountData::Storage(ZKStorage::new(authority, seed_name, bump)));
            Ok(())
        },
    }
}

/// Creates the batch record of `authority` for `batch_root` at the address
/// `place` that was derived for it, stamped with the ledger's time.
///
/// Fails with `AddressDerivationExhausted` where there is no address, and with
/// `AddressAlreadyInUse` where a record already stands at it.
pub fn create_batch(
    ledger: &mut Ledger,
    place: Option<(Pubkey, u8)>,
    authority: Pubkey,
    batch_root: [u8; 32],
    batch_size: u32,
    metadata: String,
) -> (result: Result<(), ErrorCode>)
    ensures
        result == allocation_outcome(old(ledger)@, derived(place)),
        final(ledger)@ == after_create_batch(
            old(ledger)@,
            derived(place),
            authority@,
            batch_root@,
            batch_size,
            metadata@,
        ),
{
    match place {
        None => Err(ErrorCode::AddressDerivationExhausted),
        Some((address, bump)) => {
            if ledger.account(&address).is_some() {
                return Err(ErrorCode::AddressAlreadyInUse);
            }
            let timestamp = ledger.unix_timestamp();
            let record = BatchStorage {
                authority,
                batch_root,
                batch_size,
                metadata,
                timestamp,
                bump,
            };
            ledger.put(address, AccountData::Batch(record));
            Ok(())
        },
    }
}

/// Registers a commitment record for the caller under `seed_name`, at the
/// address derived from the name and the caller, with a zero commitment,
/// empty metadata and timestamp zero.
///
/// Fails with `SeedNameTooLong` where the name is longer than 50 bytes, else
/// with `AddressDerivationExhausted` where no address can be derived, else
/// with `AddressAlreadyInUse` where a record already stands at the address. A
/// rejected call changes nothing. The bump seed that the new record holds
/// gives its address back without a search.
pub fn initialize_storage(ledger: &mut Ledger, ctx: &InitializeStorage, seed_name: String) -> (result:
    Result<(), ErrorCode>)
    ensures
        result == initialize_storage_outcome(old(ledger)@, ctx.authority@, seed_name@),
        final(ledger)@ == after_initialize_storage(old(ledger)@, ctx.authority@, seed_name@),
        result is Ok ==> bump_gives_storage_address(old(ledger)@, ctx.authority@, seed_name@),
{
    if seed_name.as_str().as_bytes().len() > MAX_SEED_NAME_LEN {
        return Err(ErrorCode::SeedNameTooLong);
    }
    let program_id = ledger.program_id();
    let place = find_storage_address(&program_id, seed_name.as_str(), &ctx.authority);
    create_storage(ledger, place, ctx.authority, seed_name)
}

/// Overwrites the record at `storage` on behalf of `caller`.
fn overwrite(
    ledger: &mut Ledger,
    storage: &Pubkey,
    caller: &Pubkey,
    commitment: [u8; 32],
    metadata: String,
    timestamp: u64,
) -> (result: Result<(), ErrorCode>)
    ensures
        result == store_commitment_outcome(old(ledger)@, storage@, caller@, metadata@),
        final(ledger)@ == after_store_commitment(
            old(ledger)@,
            storage@,
            result,
            commitment@,
            metadata@,
            timestamp,
        ),
{
    let mut record = match ledger.storage(storage) {
        Some(record) => record.copy(),
        None => {
            return Err(ErrorCode::StorageNotInitialized);
        },
    };
    let result = record.store(caller, commitment, metadata, timestamp);
    if result.is_ok() {
        ledger.put(*storage, AccountData::Storage(record));
    }
    result
}

/// Stores a commitment in the record at `ctx.storage`, with its metadata and
/// the timestamp that is bound into it.
///
/// Fails with `StorageNotInitialized` where no commitment record stands at
/// the address; else with `Unauthorized` where the caller is not the record's
/// authority; else with `MetadataTooLong` where the metadata is longer than
/// 500 bytes; else with `StorageNotInitialized` where the record is not
/// initialized. A rejected call changes nothing.
pub fn store_commitment(
    ledger: &mut Ledger,
    ctx: &StoreCommitment,
    commitment: [u8; 32],
    metadata: String,
    timestamp: u64,
) -> (result: Result<(), ErrorCode>)
    ensures
        result == store_commitment_outcome(
            old(ledger)@,
            ctx.storage@,
            ctx.authority@,
            metadata@,
        ),
        final(ledger)@ == after_store_commitment(
            old(ledger)@,
            ctx.storage@,
            result,
            commitment@,
            metadata@,
            timestamp,
        ),
{
    overwrite(ledger, &ctx.storage, &ctx.authority, commitment, metadata, timestamp)
}

/// Replaces the commitment in the record at `ctx.storage`: the same as
/// `store_commitment`, named apart for the reader of a call.
pub fn update_commitment(
    ledger: &mut Ledger,
    ctx: &UpdateCommitment,
    new_commitment: [u8; 32],
    metadata: String,
    timestamp: u64,
) -> (result: Result<(), ErrorCode>)
    ensures
        result == store_commitment_outcome(
            old(ledger)@,
            ctx.storage@,
            ctx.authority@,
            metadata@,
        ),
        final(ledger)@ == after_store_commitment(
            old(ledger)@,
            ctx.storage@,
            result,
            new_commitment@,
            metadata@,
            timestamp,
        ),
{
    overwrite(ledger, &ctx.storage, &ctx.authority, new_commitment, metadata, timestamp)
}

/// Checks that `(data, secret, nonce)` opens the commitment in the record at
/// `ctx.storage`. Anyone may ask, and the ledger is only read.
///
/// Fails with `StorageNotInitialized` where no initialized commitment record
/// stands at the address, and with `InvalidCommitment` where SHA-256 of data,
/// secret, nonce and the record's timestamp in base 10 is not the stored
/// commitment.
pub fn verify_commitment(
    ledger: &Ledger,
    ctx: &VerifyCommitment,
    data: String,
    secret: String,
    nonce: String,
) -> (result: Result<(), ErrorCode>)
    ensures
        result == verify_commitment_outcome(ledger@, ctx.storage@, data@, secret@, nonce@),
{
    match ledger.storage(&ctx.storage) {
        Some(record) => record.verify(data.as_str(), secret.as_str(), nonce.as_str()),
        None => Err(ErrorCode::StorageNotInitialized),
    }
}

/// Stores a Merkle root as the commitment of the record at `ctx.storage`,
/// under the conditions of `store_commitment`. The leaf count is written into
/// the metadata text, and the timestamp is the ledger's time.
pub fn store_merkle_root(
    ledger: &mut Ledger,
    ctx: &StoreMerkleRoot,
    merkle_root: [u8; 32],
    leaf_count: u32,
    metadata: String,
) -> (result: Result<(), ErrorCode>)
    ensures
        result == store_commitment_outcome(
            old(ledger)@,
            ctx.storage@,
            ctx.authority@,
            metadata@,
        ),
        final(ledger)@ == after_store_commitment(
            old(ledger)@,
            ctx.storage@,
            result,
            merkle_root@,
            merkle_metadata(leaf_count, metadata@),
            old(ledger)@.unix_timestamp,
        ),
{
    let mut record = match ledger.storage(&ctx.storage) {
        Some(record) => record.copy(),
        None => {
            return Err(ErrorCode::StorageNotInitialized);
        },
    };
    let now = ledger.unix_timestamp();
    let result = record.store_merkle_root(&ctx.authority, merkle_root, leaf_count, metadata, now);
    if result.is_ok() {
        ledger.put(ctx.storage, AccountData::Storage(record));
    }
    result
}

/// Creates the batch record of the caller for `batch_root`, at the address
/// derived from the root and the caller, stamped with the ledger's time.
///
/// Fails with `MetadataTooLong` where the metadata is longer than 200 bytes,
/// else with `AddressDerivationExhausted` where no address can be derived,
/// else with `AddressAlreadyInUse` where a record already stands at the
/// address. A rejected call changes nothing.
pub fn store_batch(
    ledger: &mut Ledger,
    ctx: &StoreBatch,
    batch_root: [u8; 32],
    batch_size: u32,
    metadata: String,
) -> (result: Result<(), ErrorCode>)
    ensures
        result == store_batch_outcome(old(ledger)@, ctx.authority@, batch_root@, metadata@),
        final(ledger)@ == after_store_batch(
            old(ledger)@,
            ctx.authority@,
            batch_root@,
            batch_size,
            metadata@,
        ),
        result is Ok ==> bump_gives_batch_address(
            old(ledger)@,
            ctx.authority@,
            batch_root@,
            metadata@,
        ),
{
    if metadata.as_str().as_bytes().len() > MAX_BATCH_METADATA_LEN {
        return Err(ErrorCode::MetadataTooLong);
    }
    let program_id = ledger.program_id();
    let place = find_batch_address(&program_id, &batch_root, &ctx.authority);
    create_batch(ledger, place, ctx.authority, batch_root, batch_size, metadata)
}

/// Looks up the commitment record of `authority` under `seed_name`, at the
/// address that the two derive.
pub fn find_storage<'a>(ledger: &'a Ledger, seed_name: &str, authority: &Pubkey) -> (found: Option<
    &'a ZKStorage,
>)
    ensures
        found_storage(found) == lookup_storage(ledger@, seed_name@, authority@),
{
    let program_id = ledger.program_id();
    match find_storage_address(&program_id, seed_name, authority) {
        Some((address, bump)) => ledger.storage(&address),
        None => None,
    }
}

} // verus!
