use crate::address::{
    batch_address_with_bump, made, make_batch_address, make_storage_address,
    storage_address_with_bump,
};
use crate::decimal::{decimal, decimal_string, push_decimal};
use crate::error::ErrorCode;
use crate::hash::{sha256, sha256_digest};
use crate::pubkey::{bytes32_eq, Pubkey};
use vstd::prelude::*;
use vstd::string::*;
use vstd::utf8::encode_utf8;

verus! {

/// The longest seed name, in bytes, that a record can be created under.
pub const MAX_SEED_NAME_LEN: usize = 50;

/// The longest metadata, in bytes, that a caller can hand to a commitment record.
pub const MAX_METADATA_LEN: usize = 500;

/// The longest metadata, in bytes, of a batch record.
pub const MAX_BATCH_METADATA_LEN: usize = 200;

/// The longest metadata, in bytes, that a commitment record comes to hold:
/// the caller's 500 bytes, and in front of them, where a Merkle root is
/// stored, a leaf count of at most 10 digits between a tag of 14 bytes and a
/// comma.
pub const MAX_STORED_METADATA_LEN: usize = 525;

/// The number of bytes that a text takes when it is stored or hashed.
pub open spec fn utf8_len(text: Seq<char>) -> nat {
    encode_utf8(text).len()
}

/// The bytes of two texts joined are the bytes of the one, then of the other.
pub proof fn lemma_utf8_of_joined(first: Seq<char>, second: Seq<char>)
    ensures
        encode_utf8(first + second) == encode_utf8(first) + encode_utf8(second),
    decreases first.len(),
{
    if first.len() == 0 {
        assert(first + second =~= second);
        assert(encode_utf8(first) + encode_utf8(second) =~= encode_utf8(second));
    } else {
        lemma_utf8_of_joined(first.drop_first(), second);
        assert((first + second).drop_first() =~= first.drop_first() + second);
        assert(encode_utf8(first + second) =~= encode_utf8(first) + encode_utf8(second));
    }
}

/// A commitment record: the slot that one authority registered under one name.
#[derive(Clone, Debug, PartialEq, Eq)]
pub struct ZKStorage {
    /// Who created the record, and the only one who may change it.
    pub authority: Pubkey,
    /// The name the record was created under.
    pub seed_name: String,
    /// The digest that is currently committed to.
    pub commitment: [u8; 32],
    /// Free-form text that goes with the commitment.
    pub metadata: String,
    /// The time that is bound into the commitment.
    pub timestamp: u64,
    /// The bump seed that address derivation chose when the record was created.
    pub bump: u8,
    /// Whether creation has completed.
    pub is_initialized: bool,
}

/// What a commitment record holds, as mathematical values.
pub struct StorageRecord {
    pub authority: Seq<u8>,
    pub seed_name: Seq<char>,
    pub commitment: Seq<u8>,
    pub metadata: Seq<char>,
    pub timestamp: u64,
    pub bump: u8,
    pub is_initialized: bool,
}

impl View for ZKStorage {
    type V = StorageRecord;

    open spec fn view(&self) -> StorageRecord {
        StorageRecord {
            authority: self.authority@,
            seed_name: self.seed_name@,
            commitment: self.commitment@,
            metadata: self.metadata@,
            timestamp: self.timestamp,
            bump: self.bump,
            is_initialized: self.is_initialized,
        }
    }
}

/// A batch record: one root that stands for a group of leaves, written once.
#[derive(Clone, Debug, PartialEq, Eq)]
pub struct BatchStorage {
    /// Who created the record.
    pub authority: Pubkey,
    /// The root that the record was created for.
    pub batch_root: [u8; 32],
    /// The number of leaves under the root.
    pub batch_size: u32,
    /// Free-form text that goes with the batch.
    pub metadata: String,
    /// The ledger's time when the record was created.
    pub timestamp: u64,
    /// The bump seed that address derivation chose when the record was created.
    pub bump: u8,
}

/// What a batch record holds, as mathematical values.
pub struct BatchRecord {
    pub authority: Seq<u8>,
    pub batch_root: Seq<u8>,
    pub batch_size: u32,
    pub metadata: Seq<char>,
    pub timestamp: u64,
    pub bump: u8,
}

impl View for BatchStorage {
    type V = BatchRecord;

    open spec fn view(&self) -> BatchRecord {
        BatchRecord {
            authority: self.authority@,
            batch_root: self.batch_root@,
            batch_size: self.batch_size,
            metadata: self.metadata@,
            timestamp: self.timestamp,
            bump: self.bump,
        }
    }
}

impl BatchStorage {
    /// The address at which the record stands under `program_id`, made from
    /// its root, its authority and its bump seed.
    pub fn address(&self, program_id: &Pubkey) -> (address: Option<Pubkey>)
        ensures
            made(address) == batch_address_with_bump(
                program_id@,
                self@.batch_root,
                self@.authority,
                self@.bump,
            ),
    {
        make_batch_address(program_id, &self.batch_root, &self.authority, self.bump)
    }

    /// A copy of the record.
    pub fn copy(&self) -> (record: BatchStorage)
        ensures
            record@ == self@,
    {
        BatchStorage {
            authority: self.authority,
            batch_root: self.batch_root,
            batch_size: self.batch_size,
            metadata: self.metadata.clone(),
            timestamp: self.timestamp,
            bump: self.bump,
        }
    }
}

/// Whether a commitment record is within the sizes that it is laid out for:
/// 32 bytes of authority and of commitment, a name of at most 50 bytes, and
/// metadata of at most 525 bytes.
pub open spec fn within_limits(record: StorageRecord) -> bool {
    &&& record.authority.len() == 32
    &&& record.commitment.len() == 32
    &&& utf8_len(record.seed_name) <= MAX_SEED_NAME_LEN
    &&& utf8_len(record.metadata) <= MAX_STORED_METADATA_LEN
}

/// The record that creation leaves behind: nothing committed yet.
pub open spec fn fresh_record(authority: Seq<u8>, seed_name: Seq<char>, bump: u8) -> StorageRecord {
    StorageRecord {
        authority,
        seed_name,
        commitment: Seq::new(32, |i: int| 0u8),
        metadata: Seq::empty(),
        timestamp: 0,
        bump,
        is_initialized: true,
    }
}

/// Whether `caller` may overwrite `record` with a commitment that carries `metadata`.
///
/// The caller is judged first, so that a stranger learns nothing but that the
/// record is not theirs; then the metadata; then the record itself.
pub open spec fn store_outcome(record: StorageRecord, caller: Seq<u8>, metadata: Seq<char>) -> Result<
    (),
    ErrorCode,
> {
    if caller != record.authority {
        Err(ErrorCode::Unauthorized)
    } else if utf8_len(metadata) > MAX_METADATA_LEN {
        Err(ErrorCode::MetadataTooLong)
    } else if !record.is_initialized {
        Err(ErrorCode::StorageNotInitialized)
    } else {
        Ok(())
    }
}

/// `record` after its commitment, metadata and timestamp were overwritten.
pub open spec fn stored(
    record: StorageRecord,
    commitment: Seq<u8>,
    metadata: Seq<char>,
    timestamp: u64,
) -> StorageRecord {
    StorageRecord { commitment, metadata, timestamp, ..record }
}

/// `record` after an attempt to overwrite it: overwritten where the attempt
/// was accepted, as it was where it was rejected.
pub open spec fn after_store(
    record: StorageRecord,
    outcome: Result<(), ErrorCode>,
    commitment: Seq<u8>,
    metadata: Seq<char>,
    timestamp: u64,
) -> StorageRecord {
    if outcome is Ok {
        stored(record, commitment, metadata, timestamp)
    } else {
        record
    }
}

/// The metadata under which a Merkle root is stored: the leaf count, written
/// out in the text, in front of the caller's own metadata.
pub open spec fn merkle_metadata(leaf_count: u32, metadata: Seq<char>) -> Seq<char> {
    "merkle_leaves:"@ + decimal(leaf_count as nat) + ","@ + metadata
}

/// The bytes that are hashed to open a commitment: data, secret and nonce,
/// then the record's timestamp in base 10.
pub open spec fn opening_preimage(
    data: Seq<char>,
    secret: Seq<char>,
    nonce: Seq<char>,
    timestamp: u64,
) -> Seq<u8> {
    encode_utf8(data) + encode_utf8(secret) + encode_utf8(nonce) + encode_utf8(
        decimal(timestamp as nat),
    )
}

/// Whether `digest` opens `record`.
pub open spec fn opening_outcome(record: StorageRecord, digest: Seq<u8>) -> Result<(), ErrorCode> {
    if !record.is_initialized {
        Err(ErrorCode::StorageNotInitialized)
    } else if digest != record.commitment {
        Err(ErrorCode::InvalidCommitment)
    } else {
        Ok(())
    }
}

/// Whether `(data, secret, nonce)` opens `record`.
pub open spec fn verify_outcome(
    record: StorageRecord,
    data: Seq<char>,
    secret: Seq<char>,
    nonce: Seq<char>,
) -> Result<(), ErrorCode> {
    opening_outcome(record, sha256(opening_preimage(data, secret, nonce, record.timestamp)))
}

impl ZKStorage {
    /// The record that creation leaves behind.
    pub fn new(authority: Pubkey, seed_name: String, bump: u8) -> (record: ZKStorage)
        ensures
            record@ == fresh_record(authority@, seed_name@, bump),
    {
        let record = ZKStorage {
            authority,
            seed_name,
            commitment: [0u8; 32],
            metadata: String::new(),
            timestamp: 0,
            bump,
            is_initialized: true,
        };
        assert(record.commitment@ =~= Seq::new(32, |i: int| 0u8));
        record
    }

    /// The address at which the record stands under `program_id`, made from
    /// its name, its authority and its bump seed.
    pub fn address(&self, program_id: &Pubkey) -> (address: Option<Pubkey>)
        ensures
            made(address) == storage_address_with_bump(
                program_id@,
                self@.seed_name,
                self@.authority,
                self@.bump,
            ),
    {
        make_storage_address(program_id, self.seed_name.as_str(), &self.authority, self.bump)
    }

    /// A copy of the record.
    pub fn copy(&self) -> (record: ZKStorage)
        ensures
            record@ == self@,
    {
        ZKStorage {
            authority: self.authority,
            seed_name: self.seed_name.clone(),
            commitment: self.commitment,
            metadata: self.metadata.clone(),
            timestamp: self.timestamp,
            bump: self.bump,
            is_initialized: self.is_initialized,
        }
    }

    /// Overwrites commitment, metadata and timestamp, if `caller` is the
    /// record's authority, the metadata fits and the record is initialized.
    /// A rejected call changes nothing.
    pub fn store(
        &mut self,
        caller: &Pubkey,
        commitment: [u8; 32],
        metadata: String,
        timestamp: u64,
    ) -> (result: Result<(), ErrorCode>)
        ensures
            result == store_outcome(old(self)@, caller@, metadata@),
            final(self)@ == after_store(old(self)@, result, commitment@, metadata@, timestamp),
            result is Err ==> *final(self) == *old(self),
    {
        if *caller != self.authority {
            return Err(ErrorCode::Unauthorized);
        }
        if metadata.as_str().as_bytes().len() > MAX_METADATA_LEN {
            return Err(ErrorCode::MetadataTooLong);
        }
        if !self.is_initialized {
            return Err(ErrorCode::StorageNotInitialized);
        }
        self.commitment = commitment;
        self.metadata = metadata;
        self.timestamp = timestamp;
        Ok(())
    }

    /// Stores a Merkle root as the commitment, under the same conditions as
    /// `store`. The leaf count goes into the metadata text; the timestamp is
    /// `now`, the ledger's time, and not the caller's to choose.
    pub fn store_merkle_root(
        &mut self,
        caller: &Pubkey,
        merkle_root: [u8; 32],
        leaf_count: u32,
        metadata: String,
        now: u64,
    ) -> (result: Result<(), ErrorCode>)
        ensures
            result == store_outcome(old(self)@, caller@, metadata@),
            final(self)@ == after_store(
                old(self)@,
                result,
                merkle_root@,
                merkle_metadata(leaf_count, metadata@),
                now,
            ),
            result is Err ==> *final(self) == *old(self),
    {
        if *caller != self.authority {
            return Err(ErrorCode::Unauthorized);
        }
        if metadata.as_str().as_bytes().len() > MAX_METADATA_LEN {
            return Err(ErrorCode::MetadataTooLong);
        }
        if !self.is_initialized {
            return Err(ErrorCode::StorageNotInitialized);
        }
        let mut text = String::from_str("merkle_leaves:");
        push_decimal(&mut text, leaf_count as u64);
        text.append(",");
        text.append(metadata.as_str());
        self.commitment = merkle_root;
        self.metadata = text;
        self.timestamp = now;
        Ok(())
    }

    /// Judges a digest that was computed for an opening of this record: it
    /// opens the record if the record is initialized and the digest is the
    /// stored commitment, byte for byte.
    pub fn check_opening(&self, digest: &[u8; 32]) -> (result: Result<(), ErrorCode>)
        ensures
            result == opening_outcome(self@, digest@),
    {
        if !self.is_initialized {
            return Err(ErrorCode::StorageNotInitialized);
        }
        if !bytes32_eq(digest, &self.commitment) {
            return Err(ErrorCode::InvalidCommitment);
        }
        Ok(())
    }

    /// Checks that `(data, secret, nonce)` opens the record: that SHA-256 of
    /// the three texts and the record's timestamp in base 10 is the stored
    /// commitment. Anyone may ask; nothing is changed.
    pub fn verify(&self, data: &str, secret: &str, nonce: &str) -> (result: Result<(), ErrorCode>)
        ensures
            result == verify_outcome(self@, data@, secret@, nonce@),
    {
        if !self.is_initialized {
            return Err(ErrorCode::StorageNotInitialized);
        }
        let mut input: Vec<u8> = Vec::new();
        input.extend_from_slice(data.as_bytes());
        input.extend_from_slice(secret.as_bytes());
        input.extend_from_slice(nonce.as_bytes());
        let stamp = decimal_string(self.timestamp);
        input.extend_from_slice(stamp.as_str().as_bytes());
        assert(input@ =~= opening_preimage(data@, secret@, nonce@, self.timestamp));
        let digest = sha256_digest(input.as_slice());
        self.check_opening(&digest)
    }
}

} // verus!
