pub mod address;
pub mod decimal;
pub mod error;
pub mod hash;
pub mod instructions;
pub mod laws;
pub mod ledger;
pub mod pubkey;
pub mod state;

pub use error::ErrorCode;
pub use instructions::{
    create_batch, create_storage, find_storage, initialize_storage, store_batch,
    store_commitment, store_merkle_root, update_commitment, verify_commitment,
    InitializeStorage, StoreBatch, StoreCommitment, StoreMerkleRoot, UpdateCommitment,
    VerifyCommitment,
};
pub use ledger::{Account, AccountData, Ledger};
pub use pubkey::Pubkey;
pub use state::{BatchStorage, ZKStorage};
