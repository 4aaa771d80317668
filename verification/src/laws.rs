use crate::decimal::{decimal, lemma_decimal_is_ascii, lemma_decimal_len_u32};
use crate::error::ErrorCode;
use crate::hash::sha256;
use crate::instructions::{
    after_initialize_storage, after_store_batch, after_store_commitment,
    initialize_storage_outcome, lookup_storage, store_batch_outcome, store_commitment_outcome,
    verify_commitment, verify_commitment_outcome, VerifyCommitment,
};
use crate::ledger::{storage_at, Ledger, LedgerState};
use crate::state::{
    after_store, fresh_record, lemma_utf8_of_joined, merkle_metadata, opening_preimage,
    store_outcome, utf8_len, within_limits, StorageRecord,
};
use vstd::prelude::*;
use vstd::utf8::encode_utf8;

verus! {

/// A record that was just created is found under its name and its authority,
/// and nothing is committed in it: the commitment is 32 zero bytes, the
/// metadata is empty, the timestamp is zero, and it is initialized.
pub proof fn law_created_record_is_found(
    ledger: LedgerState,
    authority: Seq<u8>,
    seed_name: Seq<char>,
)
    requires
        initialize_storage_outcome(ledger, authority, seed_name) is Ok,
    ensures
        lookup_storage(
            after_initialize_storage(ledger, authority, seed_name),
            seed_name,
            authority,
        ) matches Some(record) && record.authority == authority && record.seed_name == seed_name
            && record.commitment == Seq::new(32, |i: int| 0u8) && record.metadata
            == Seq::<char>::empty() && record.timestamp == 0 && record.is_initialized,
{
}

/// Whoever is not the authority of a record cannot write to it, whatever they
/// bring: the attempt ends in `Unauthorized` and the record stays as it was.
/// This is the outcome of a plain store, of an update and of storing a Merkle
/// root alike.
pub proof fn law_stranger_cannot_overwrite(
    record: StorageRecord,
    caller: Seq<u8>,
    commitment: Seq<u8>,
    metadata: Seq<char>,
    timestamp: u64,
)
    requires
        caller != record.authority,
    ensures
        store_outcome(record, caller, metadata) == Err::<(), ErrorCode>(ErrorCode::Unauthorized),
        after_store(
            record,
            store_outcome(record, caller, metadata),
            commitment,
            metadata,
            timestamp,
        ) == record,
{
}

/// Whoever is not the authority of the record at an address cannot change
/// the ledger through it: `store_commitment`, `update_commitment` and
/// `store_merkle_root` end in `Unauthorized` and leave the ledger as it was.
pub proof fn law_stranger_cannot_write(
    ledger: LedgerState,
    address: Seq<u8>,
    caller: Seq<u8>,
    commitment: Seq<u8>,
    metadata: Seq<char>,
    timestamp: u64,
)
    requires
        storage_at(ledger, address) matches Some(record) && record.authority != caller,
    ensures
        store_commitment_outcome(ledger, address, caller, metadata) == Err::<(), ErrorCode>(
            ErrorCode::Unauthorized,
        ),
        after_store_commitment(
            ledger,
            address,
            store_commitment_outcome(ledger, address, caller, metadata),
            commitment,
            metadata,
            timestamp,
        ) == ledger,
{
}

/// After the authority stored the commitment `commitment` with the timestamp
/// `timestamp`, an opening is accepted exactly when SHA-256 of data, secret,
/// nonce and the timestamp in base 10 is `commitment`.
pub proof fn law_store_then_verify(
    ledger: LedgerState,
    address: Seq<u8>,
    caller: Seq<u8>,
    commitment: Seq<u8>,
    metadata: Seq<char>,
    timestamp: u64,
    data: Seq<char>,
    secret: Seq<char>,
    nonce: Seq<char>,
)
    requires
        store_commitment_outcome(ledger, address, caller, metadata) is Ok,
    ensures
        verify_commitment_outcome(
            after_store_commitment(
                ledger,
                address,
                store_commitment_outcome(ledger, address, caller, metadata),
                commitment,
                metadata,
                timestamp,
            ),
            address,
            data,
            secret,
            nonce,
        ) is Ok <==> sha256(opening_preimage(data, secret, nonce, timestamp)) == commitment,
{
}

/// Verification is a function of the ledger and the opening: two calls of
/// `verify_commitment` on the same ledger with the same inputs end the same
/// way. (It takes the ledger by shared reference, so neither call changes it.)
pub proof fn law_verify_is_repeatable(
    ledger: Ledger,
    ctx: VerifyCommitment,
    data: String,
    secret: String,
    nonce: String,
    first: Result<(), ErrorCode>,
    second: Result<(), ErrorCode>,
)
    requires
        call_ensures(verify_commitment, (&ledger, &ctx, data, secret, nonce), first),
        call_ensures(verify_commitment, (&ledger, &ctx, data, secret, nonce), second),
    ensures
        first == second,
{
}

/// The authority, the name and the bump seed of a record are fixed when it is
/// created: no store, accepted or not, changes them.
pub proof fn law_authority_and_name_are_fixed(
    record: StorageRecord,
    outcome: Result<(), ErrorCode>,
    commitment: Seq<u8>,
    metadata: Seq<char>,
    timestamp: u64,
)
    ensures
        after_store(record, outcome, commitment, metadata, timestamp).authority
            == record.authority,
        after_store(record, outcome, commitment, metadata, timestamp).seed_name
            == record.seed_name,
        after_store(record, outcome, commitment, metadata, timestamp).bump == record.bump,
        after_store(record, outcome, commitment, metadata, timestamp).is_initialized
            == record.is_initialized,
{
}

/// The limit on the metadata of a commitment is 500 bytes: the authority of
/// an initialized record can store metadata of 500 bytes, and not of 501.
pub proof fn law_metadata_limit(record: StorageRecord, metadata: Seq<char>)
    requires
        record.is_initialized,
    ensures
        utf8_len(metadata) <= 500 ==> store_outcome(record, record.authority, metadata) is Ok,
        utf8_len(metadata) > 500 ==> store_outcome(record, record.authority, metadata) == Err::<
            (),
            ErrorCode,
        >(ErrorCode::MetadataTooLong),
{
}

/// The limit on a seed name is 50 bytes: a longer one is refused as
/// `SeedNameTooLong`, and one of up to 50 bytes never is.
pub proof fn law_seed_name_limit(ledger: LedgerState, authority: Seq<u8>, seed_name: Seq<char>)
    ensures
        utf8_len(seed_name) > 50 <==> initialize_storage_outcome(ledger, authority, seed_name)
            == Err::<(), ErrorCode>(ErrorCode::SeedNameTooLong),
{
}

/// The limit on the metadata of a batch is 200 bytes: longer metadata is
/// refused as `MetadataTooLong`, and metadata of up to 200 bytes never is.
pub proof fn law_batch_metadata_limit(
    ledger: LedgerState,
    authority: Seq<u8>,
    batch_root: Seq<u8>,
    metadata: Seq<char>,
)
    ensures
        utf8_len(metadata) > 200 <==> store_batch_outcome(ledger, authority, batch_root, metadata)
            == Err::<(), ErrorCode>(ErrorCode::MetadataTooLong),
{
}

/// A batch record is created once: after `store_batch` succeeded, the same
/// call on the ledger it left ends in `AddressAlreadyInUse`.
pub proof fn law_batch_is_created_once(
    ledger: LedgerState,
    authority: Seq<u8>,
    batch_root: Seq<u8>,
    batch_size: u32,
    metadata: Seq<char>,
)
    requires
        store_batch_outcome(ledger, authority, batch_root, metadata) is Ok,
    ensures
        store_batch_outcome(
            after_store_batch(ledger, authority, batch_root, batch_size, metadata),
            authority,
            batch_root,
            metadata,
        ) == Err::<(), ErrorCode>(ErrorCode::AddressAlreadyInUse),
{
}

/// A commitment record is created once: after `initialize_storage` succeeded,
/// the same call on the ledger it left ends in `AddressAlreadyInUse`.
pub proof fn law_storage_is_created_once(
    ledger: LedgerState,
    authority: Seq<u8>,
    seed_name: Seq<char>,
)
    requires
        initialize_storage_outcome(ledger, authority, seed_name) is Ok,
    ensures
        initialize_storage_outcome(
            after_initialize_storage(ledger, authority, seed_name),
            authority,
            seed_name,
        ) == Err::<(), ErrorCode>(ErrorCode::AddressAlreadyInUse),
{
}

/// What is hashed to open a commitment is the text that data, secret, nonce
/// and the timestamp in base 10 make when they are written one after the
/// other.
pub proof fn law_opening_is_one_text(
    data: Seq<char>,
    secret: Seq<char>,
    nonce: Seq<char>,
    timestamp: u64,
)
    ensures
        opening_preimage(data, secret, nonce, timestamp) == encode_utf8(
            data + secret + nonce + decimal(timestamp as nat),
        ),
{
    lemma_utf8_of_joined(data, secret);
    lemma_utf8_of_joined(data + secret, nonce);
    lemma_utf8_of_joined(data + secret + nonce, decimal(timestamp as nat));
}

/// The metadata of a Merkle root is the caller's metadata with 14 bytes of
/// tag, the digits of the leaf count and a comma in front: at most 25 bytes
/// more than the caller's.
pub proof fn law_merkle_metadata_length(leaf_count: u32, metadata: Seq<char>)
    ensures
        utf8_len(merkle_metadata(leaf_count, metadata)) == 14 + decimal(leaf_count as nat).len()
            + 1 + utf8_len(metadata),
        utf8_len(merkle_metadata(leaf_count, metadata)) <= 25 + utf8_len(metadata),
{
    let tag = "merkle_leaves:"@;
    let comma = ","@;
    let digits = decimal(leaf_count as nat);
    reveal_strlit("merkle_leaves:");
    reveal_strlit(",");
    assert(vstd::utf8::is_ascii_chars(tag));
    assert(vstd::utf8::is_ascii_chars(comma));
    vstd::utf8::is_ascii_chars_encode_utf8(tag);
    vstd::utf8::is_ascii_chars_encode_utf8(comma);
    lemma_decimal_is_ascii(leaf_count as nat);
    lemma_decimal_len_u32(leaf_count);
    lemma_utf8_of_joined(tag, digits);
    lemma_utf8_of_joined(tag + digits, comma);
    lemma_utf8_of_joined(tag + digits + comma, metadata);
}

/// A record that is created under a name of at most 50 bytes, for an
/// authority of 32 bytes, is within the limits.
pub proof fn law_fresh_record_is_within_limits(authority: Seq<u8>, seed_name: Seq<char>, bump: u8)
    requires
        authority.len() == 32,
        utf8_len(seed_name) <= 50,
    ensures
        within_limits(fresh_record(authority, seed_name, bump)),
{
    assert(encode_utf8(Seq::<char>::empty()) =~= Seq::<u8>::empty());
}

/// A record within the limits stays within them through every store of a
/// 32-byte commitment, accepted or not.
pub proof fn law_store_keeps_within_limits(
    record: StorageRecord,
    caller: Seq<u8>,
    commitment: Seq<u8>,
    metadata: Seq<char>,
    timestamp: u64,
)
    requires
        within_limits(record),
        commitment.len() == 32,
    ensures
        within_limits(
            after_store(
                record,
                store_outcome(record, caller, metadata),
                commitment,
                metadata,
                timestamp,
            ),
        ),
{
}

/// A record within the limits stays within them when a Merkle root is
/// stored, accepted or not: with the leaf count in front, its metadata is at
/// most 525 bytes.
pub proof fn law_merkle_root_keeps_within_limits(
    record: StorageRecord,
    caller: Seq<u8>,
    merkle_root: Seq<u8>,
    leaf_count: u32,
    metadata: Seq<char>,
    now: u64,
)
    requires
        within_limits(record),
        merkle_root.len() == 32,
    ensures
        within_limits(
            after_store(
                record,
                store_outcome(record, caller, metadata),
                merkle_root,
                merkle_metadata(leaf_count, metadata),
                now,
            ),
        ),
{
    law_merkle_metadata_length(leaf_count, metadata);
}

} // verus!
