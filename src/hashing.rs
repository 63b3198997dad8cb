use vstd::prelude::*;
use tiny_keccak::Hasher;

use crate::error::CryptoError;

verus! {

/// Length of a digest in bytes.
pub const HASH_BYTES_LEN: usize = 32;

/// Length of an address in bytes.
pub const ADDR_BYTES_LEN: usize = 20;

/// The Keccak-256 digest of a byte string.
pub uninterp spec fn keccak256(data: Seq<u8>) -> Seq<u8>;

/// The address of a public key: the last 20 bytes of its digest.
pub open spec fn address_of(pk: Seq<u8>) -> Seq<u8> {
    keccak256(pk).subrange(12, 32)
}

/// What checking `claimed` against the digest of `data` yields.
pub open spec fn verify_hash_spec(data: Seq<u8>, claimed: Seq<u8>) -> Result<(), CryptoError> {
    if claimed.len() != 32 {
        Err(CryptoError::HashLength)
    } else if claimed == keccak256(data) {
        Ok(())
    } else {
        Err(CryptoError::HashMismatch)
    }
}

/// Relies on tiny_keccak's `Keccak::v256` with `update` and `finalize`:
/// the 32-byte Keccak-256 digest, a function of the input alone.
#[verifier::external_body]
fn keccak_hash(input: &[u8]) -> (r: Vec<u8>)
    ensures
        r@ == keccak256(input@),
        r@.len() == 32,
{
    let mut result = [0u8; 32];
    let mut keccak = tiny_keccak::Keccak::v256();
    keccak.update(input);
    keccak.finalize(&mut result);
    result.to_vec()
}

/// The 32-byte digest of `data`.
pub fn hash_data(data: &[u8]) -> (r: Vec<u8>)
    ensures
        r@ == keccak256(data@),
        r@.len() == HASH_BYTES_LEN,
{
    keccak_hash(data)
}

/// Whether two byte strings are equal.
pub(crate) fn bytes_equal(a: &[u8], b: &[u8]) -> (r: bool)
    ensures
        r == (a@ == b@),
{
    if a.len() != b.len() {
        return false;
    }
    let mut i: usize = 0;
    while i < a.len()
        invariant
            a@.len() == b@.len(),
            0 <= i <= a@.len(),
            forall|j: int| 0 <= j < i ==> a@[j] == b@[j],
        decreases a@.len() - i,
    {
        if a[i] != b[i] {
            return false;
        }
        i = i + 1;
    }
    assert(a@ =~= b@);
    true
}

/// Checks that `hash` is the digest of `data`.
pub fn verify_data_hash(data: &[u8], hash: &[u8]) -> (r: Result<(), CryptoError>)
    ensures
        r == verify_hash_spec(data@, hash@),
        hash@.len() != HASH_BYTES_LEN ==> r == Err::<(), CryptoError>(CryptoError::HashLength),
{
    if hash.len() != HASH_BYTES_LEN {
        Err(CryptoError::HashLength)
    } else {
        let digest = hash_data(data);
        if bytes_equal(hash, digest.as_slice()) {
            Ok(())
        } else {
            Err(CryptoError::HashMismatch)
        }
    }
}

/// The address of the public key `pk`: the last 20 bytes of its digest.
pub fn pk2address(pk: &[u8]) -> (r: Vec<u8>)
    ensures
        r@ == address_of(pk@),
        r@ == keccak256(pk@).subrange(12, 32),
        r@.len() == ADDR_BYTES_LEN,
{
    let digest = hash_data(pk);
    let mut out: Vec<u8> = Vec::new();
    let mut i: usize = HASH_BYTES_LEN - ADDR_BYTES_LEN;
    while i < HASH_BYTES_LEN
        invariant
            digest@.len() == 32,
            12 <= i <= 32,
            out@ == digest@.subrange(12, i as int),
        decreases 32 - i,
    {
        out.push(digest[i]);
        i = i + 1;
    }
    out
}

/// Checking a digest against the data it was computed from succeeds.
pub proof fn lemma_verify_own_hash(data: Seq<u8>, digest: Seq<u8>)
    requires
        digest == keccak256(data),
        digest.len() == 32,
    ensures
        verify_hash_spec(data, digest) == Ok::<(), CryptoError>(()),
{
}

/// A claimed digest whose length is not 32 is refused for a wrong length,
/// whatever the data.
pub proof fn lemma_verify_wrong_length(data: Seq<u8>, claimed: Seq<u8>)
    requires
        claimed.len() != 32,
    ensures
        verify_hash_spec(data, claimed) == Err::<(), CryptoError>(CryptoError::HashLength),
{
}

} // verus!
