use vstd::prelude::*;

use crate::error::CryptoError;
use crate::hashing::{address_of, pk2address};

verus! {

/// Length of a recoverable signature in bytes: (r, s) and the recovery id.
pub const SECP256K1_SIGNATURE_BYTES_LEN: usize = 65;

/// Length of a public key in bytes: x and y, without a prefix.
pub const SECP256K1_PUBKEY_BYTES_LEN: usize = 64;

/// The order n of the secp256k1 group.
pub open spec fn curve_order() -> nat {
    0xFFFF_FFFF_FFFF_FFFF_FFFF_FFFF_FFFF_FFFEnat * 0x1_0000_0000_0000_0000nat
        * 0x1_0000_0000_0000_0000nat + 0xBAAE_DCE6_AF48_A03B_BFD2_5E8C_D036_4141nat
}

/// The unsigned big-endian number that a byte string spells.
pub open spec fn be_value(s: Seq<u8>) -> nat
    decreases s.len(),
{
    if s.len() == 0 {
        0
    } else {
        be_value(s.drop_last()) * 256 + s.last() as nat
    }
}

/// Whether `sk` is a valid secret key: 32 bytes, read big-endian as a
/// number that is nonzero and below the curve order.
pub open spec fn valid_secret_key(sk: Seq<u8>) -> bool {
    sk.len() == 32 && 0 < be_value(sk) < curve_order()
}

/// The 64-byte public key of a valid secret key.
pub uninterp spec fn public_key_of(sk: Seq<u8>) -> Seq<u8>;

/// The 65-byte recoverable signature of a 32-byte digest under a secret key.
pub uninterp spec fn signature_of(sk: Seq<u8>, digest: Seq<u8>) -> Seq<u8>;

/// The 64-byte public key recovered from a digest and a 65-byte signature,
/// or `None` where recovery fails.
pub uninterp spec fn recovered_key(digest: Seq<u8>, signature: Seq<u8>) -> Option<Seq<u8>>;

/// The bytes held by an optional vector.
pub open spec fn bytes_opt(o: Option<Vec<u8>>) -> Option<Seq<u8>> {
    match o {
        Some(v) => Some(v@),
        None => None,
    }
}

/// The bytes held by a successful result.
pub open spec fn bytes_result(r: Result<Vec<u8>, CryptoError>) -> Result<Seq<u8>, CryptoError> {
    match r {
        Ok(v) => Ok(v@),
        Err(e) => Err(e),
    }
}

/// What deriving the public key of `sk` yields.
pub open spec fn sk2pk_spec(sk: Seq<u8>) -> Result<Seq<u8>, CryptoError> {
    if valid_secret_key(sk) {
        Ok(public_key_of(sk))
    } else {
        Err(CryptoError::InvalidKey)
    }
}

/// What deriving the address of the secret key `sk` yields.
pub open spec fn sk2address_spec(sk: Seq<u8>) -> Result<Seq<u8>, CryptoError> {
    if valid_secret_key(sk) {
        Ok(address_of(public_key_of(sk)))
    } else {
        Err(CryptoError::InvalidKey)
    }
}

/// What signing the digest `msg` with `sk` yields.
pub open spec fn sign_spec(sk: Seq<u8>, msg: Seq<u8>) -> Result<Seq<u8>, CryptoError> {
    if msg.len() != 32 {
        Err(CryptoError::Sign)
    } else if !valid_secret_key(sk) {
        Err(CryptoError::InvalidKey)
    } else {
        Ok(signature_of(sk, msg))
    }
}

/// What recovering the signer of `msg` from `signature` yields.
pub open spec fn recover_spec(msg: Seq<u8>, signature: Seq<u8>) -> Result<Seq<u8>, CryptoError> {
    if signature.len() != 65 {
        Err(CryptoError::SignatureLength)
    } else {
        match recovered_key(msg, signature) {
            Some(pk) => Ok(pk),
            None => Err(CryptoError::SignatureRecovery),
        }
    }
}

/// Relies on secp256k1's `SecretKey::from_slice` (which accepts exactly the
/// 32-byte scalars that are nonzero and below the curve order, through
/// `secp256k1_ec_seckey_verify`),
/// `PublicKey::from_secret_key` on the global context, and
/// `serialize_uncompressed`, whose 65 bytes start with a prefix byte.
#[verifier::external_body]
fn derive_public_key(sk: &[u8]) -> (r: Option<Vec<u8>>)
    ensures
        r is Some <==> valid_secret_key(sk@),
        r is Some ==> r->0@ == public_key_of(sk@) && r->0@.len() == 64,
{
    let sec = secp256k1::SecretKey::from_slice(sk).ok()?;
    let pk = secp256k1::PublicKey::from_secret_key(secp256k1::SECP256K1, &sec);
    Some(pk.serialize_uncompressed()[1..].to_vec())
}

/// Relies on secp256k1's `SecretKey::from_slice` (the same test of the key
/// as in `derive_public_key`, through `secp256k1_ec_seckey_verify`), `Message::from_digest_slice` (which accepts
/// any 32 bytes), `sign_ecdsa_recoverable` on the global context (RFC 6979,
/// so a function of key and digest) and `serialize_compact`, which gives the
/// 64-byte (r, s) pair and a recovery id in 0..=3.
#[verifier::external_body]
fn sign_recoverable(sk: &[u8], digest: &[u8]) -> (r: Option<Vec<u8>>)
    requires
        digest@.len() == 32,
    ensures
        r is Some <==> valid_secret_key(sk@),
        r is Some ==> r->0@ == signature_of(sk@, digest@) && r->0@.len() == 65 && r->0@[64] <= 3,
{
    let sec = secp256k1::SecretKey::from_slice(sk).ok()?;
    let msg = secp256k1::Message::from_digest_slice(digest).ok()?;
    let sig = secp256k1::SECP256K1.sign_ecdsa_recoverable(&msg, &sec);
    let (rec_id, data) = sig.serialize_compact();
    let mut out = data.to_vec();
    out.push(i32::from(rec_id) as u8);
    Some(out)
}

/// Relies on secp256k1's `RecoveryId::try_from` (which accepts 0..=3),
/// `RecoverableSignature::from_compact`, `Message::from_digest_slice` (which
/// accepts exactly 32 bytes), `recover_ecdsa` on the global context (the
/// key under which the signature is valid for the digest, so the key that
/// made it) and `serialize_uncompressed` without its prefix byte.
#[verifier::external_body]
fn recover_compact(digest: &[u8], signature: &[u8]) -> (r: Option<Vec<u8>>)
    requires
        signature@.len() == 65,
    ensures
        bytes_opt(r) == recovered_key(digest@, signature@),
        r is Some ==> r->0@.len() == 64,
        digest@.len() != 32 ==> r is None,
        signature@[64] > 3 ==> r is None,
        forall|sk: Seq<u8>|
            #![trigger signature_of(sk, digest@)]
            valid_secret_key(sk) && digest@.len() == 32 && signature_of(sk, digest@)
                == signature@ ==> r is Some && r->0@ == public_key_of(sk),
{
    let rid = secp256k1::ecdsa::RecoveryId::try_from(signature[64] as i32).ok()?;
    let rsig = secp256k1::ecdsa::RecoverableSignature::from_compact(&signature[0..64], rid).ok()?;
    let msg = secp256k1::Message::from_digest_slice(digest).ok()?;
    let pk = secp256k1::SECP256K1.recover_ecdsa(&msg, &rsig).ok()?;
    Some(pk.serialize_uncompressed()[1..65].to_vec())
}

/// The 64-byte public key of the secret key `sk`; `InvalidKey` where `sk`
/// is not a valid secret key.
pub fn sk2pk(sk: &[u8]) -> (r: Result<Vec<u8>, CryptoError>)
    ensures
        bytes_result(r) == sk2pk_spec(sk@),
        r is Ok ==> r->Ok_0@.len() == SECP256K1_PUBKEY_BYTES_LEN,
{
    match derive_public_key(sk) {
        Some(pk) => Ok(pk),
        None => Err(CryptoError::InvalidKey),
    }
}

/// The address of the secret key `sk`; `InvalidKey` where `sk` is not a
/// valid secret key.
pub fn sk2address(sk: &[u8]) -> (r: Result<Vec<u8>, CryptoError>)
    ensures
        bytes_result(r) == sk2address_spec(sk@),
        r is Ok ==> r->Ok_0@.len() == 20,
{
    let pk = sk2pk(sk)?;
    Ok(pk2address(pk.as_slice()))
}

/// Signs the 32-byte digest `msg` with `privkey`: 64 bytes of (r, s) and
/// the recovery id, which is at most 3. `Sign` where `msg` is not 32 bytes, else `InvalidKey`
/// where `privkey` is not a valid secret key. The public key is not used.
pub fn sign_message(_pubkey: &[u8], privkey: &[u8], msg: &[u8]) -> (r: Result<Vec<u8>, CryptoError>)
    ensures
        bytes_result(r) == sign_spec(privkey@, msg@),
        msg@.len() != 32 ==> r == Err::<Vec<u8>, CryptoError>(CryptoError::Sign),
        r is Ok ==> r->Ok_0@.len() == SECP256K1_SIGNATURE_BYTES_LEN,
        r is Ok ==> r->Ok_0@[64] <= 3,
{
    if msg.len() != 32 {
        return Err(CryptoError::Sign);
    }
    match sign_recoverable(privkey, msg) {
        Some(sig) => Ok(sig),
        None => Err(CryptoError::InvalidKey),
    }
}

/// The public key that signed the digest `msg`. `SignatureLength` where the
/// signature is not 65 bytes; `SignatureRecovery` where its recovery id or
/// (r, s) pair is malformed, `msg` is not 32 bytes, or recovery fails.
/// A signature made by `sign_message` recovers the signer's public key.
pub fn recover_signature(msg: &[u8], signature: &[u8]) -> (r: Result<Vec<u8>, CryptoError>)
    ensures
        bytes_result(r) == recover_spec(msg@, signature@),
        signature@.len() != 65 ==> r == Err::<Vec<u8>, CryptoError>(CryptoError::SignatureLength),
        signature@.len() == 65 && (msg@.len() != 32 || signature@[64] > 3) ==> r == Err::<
            Vec<u8>,
            CryptoError,
        >(CryptoError::SignatureRecovery),
        r is Ok ==> r->Ok_0@.len() == SECP256K1_PUBKEY_BYTES_LEN,
        forall|sk: Seq<u8>|
            #![trigger sign_spec(sk, msg@)]
            signature@.len() == 65 && sign_spec(sk, msg@) == Ok::<Seq<u8>, CryptoError>(
                signature@,
            ) ==> bytes_result(r) == sk2pk_spec(sk),
{
    if signature.len() != SECP256K1_SIGNATURE_BYTES_LEN {
        return Err(CryptoError::SignatureLength);
    }
    let rec = recover_compact(msg, signature);
    assert forall|sk: Seq<u8>|
        #![trigger sign_spec(sk, msg@)]
        sign_spec(sk, msg@) == Ok::<Seq<u8>, CryptoError>(signature@) implies rec is Some
            && rec->0@ == public_key_of(sk) by {
        assert(signature_of(sk, msg@) == signature@);
    }
    match rec {
        Some(pk) => Ok(pk),
        None => Err(CryptoError::SignatureRecovery),
    }
}

} // verus!
