//! A two-party timed token escrow.
//!
//! A depositor locks a fixed amount of one asset for a beneficiary, who may
//! withdraw it once the unlock time has passed. Either party may ask to cancel;
//! the deposit goes back to the depositor only once both have asked. Every
//! operation is a pure decision over the vault record: it returns the new record
//! and the token transfer that the ledger must carry out.
pub mod instructions;
pub mod laws;
pub mod manager;
pub mod pubkey;
pub mod vault;

pub use instructions::{cancel, close, create, initialize, withdraw, Cancel, Close, Create, Initialize, Withdraw};
pub use manager::{process, Instruction};
pub use pubkey::Pubkey;
pub use vault::{CustomError, Transfer, Vault};
