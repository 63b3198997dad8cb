//! Transaction authentication: Keccak-256 digests, secp256k1 recoverable
//! signatures, address derivation and the admission check of transaction
//! records, alone or in batches.

pub mod error;
pub mod hashing;
pub mod signing;
pub mod transaction;
