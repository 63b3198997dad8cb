use vstd::prelude::*;

verus! {

/// Every way in which hashing, signing or a transaction check can fail.
#[derive(Clone, Copy, Debug, PartialEq, Eq, Structural)]
pub enum CryptoError {
    /// A claimed digest is not 32 bytes long.
    HashLength,
    /// A claimed digest differs from the digest of the data.
    HashMismatch,
    /// The message to sign is not a 32-byte digest.
    Sign,
    /// A signature is not 65 bytes long.
    SignatureLength,
    /// The recovery id or the (r, s) pair is malformed, or recovery failed.
    SignatureRecovery,
    /// A secret key is zero, not below the curve order, or not 32 bytes.
    InvalidKey,
    /// The payload of a transaction could not be encoded.
    PayloadEncoding,
    /// A single-signed transaction carries no witness.
    MissingWitness,
    /// A transaction carries no payload.
    MissingPayload,
    /// The record holds no transaction at all.
    MissingRecord,
    /// A multi-signed transaction does not carry exactly one witness.
    InvalidWitnessSet,
    /// The address recovered from a signature is not the claimed sender.
    SignerMismatch,
}

} // verus!
