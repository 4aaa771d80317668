use vstd::prelude::*;

verus! {

/// Why an operation on the commitment store was rejected.
///
/// Every rejection is final for the call that met it and leaves all state as it was.
#[derive(Clone, Copy, Debug, PartialEq, Eq, Structural)]
pub enum ErrorCode {
    /// The opening does not hash to the stored commitment.
    InvalidCommitment,
    /// The metadata is longer than the operation admits.
    MetadataTooLong,
    /// The caller is not the authority of the record.
    Unauthorized,
    /// No initialized record stands where the operation looks for one.
    StorageNotInitialized,
    /// The seed name is longer than 50 bytes.
    SeedNameTooLong,
    /// A record already stands at the derived address.
    AddressAlreadyInUse,
    /// No bump seed gives an address for the seeds.
    AddressDerivationExhausted,
}

impl ErrorCode {
    /// What the error says to a reader.
    pub open spec fn message_text(self) -> Seq<char> {
        match self {
            ErrorCode::InvalidCommitment => "Invalid commitment - verification failed"@,
            ErrorCode::MetadataTooLong => "Metadata exceeds maximum length"@,
            ErrorCode::Unauthorized => "Unauthorized access - not the account authority"@,
            ErrorCode::StorageNotInitialized => "Storage account not initialized"@,
            ErrorCode::SeedNameTooLong => "Seed name too long (max 50 characters)"@,
            ErrorCode::AddressAlreadyInUse => "Address already in use"@,
            ErrorCode::AddressDerivationExhausted => "No bump seed gives an address"@,
        }
    }

    /// What the error says to a reader.
    pub fn message(&self) -> (text: &'static str)
        ensures
            text@ == self.message_text(),
    {
        match self {
            ErrorCode::InvalidCommitment => "Invalid commitment - verification failed",
            ErrorCode::MetadataTooLong => "Metadata exceeds maximum length",
            ErrorCode::Unauthorized => "Unauthorized access - not the account authority",
            ErrorCode::StorageNotInitialized => "Storage account not initialized",
            ErrorCode::SeedNameTooLong => "Seed name too long (max 50 characters)",
            ErrorCode::AddressAlreadyInUse => "Address already in use",
            ErrorCode::AddressDerivationExhausted => "No bump seed gives an address",
        }
    }
}

} // verus!
