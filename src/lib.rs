//! Record-level logic of a staking-backed attestation ledger, together with the
//! supply ledger of its token and the registry of its memory NFTs.
//!
//! Each operation reads the records that it touches, checks its preconditions
//! in a fixed order, and either commits every change or returns an error and
//! leaves every record as it was.

pub mod pubkey;
pub mod addressing;
pub mod memory_validator;
pub mod validator_laws;
pub mod nram_token;
pub mod memory_nft;
