use kms_eth::error::CryptoError;
use kms_eth::hashing::{hash_data, pk2address, verify_data_hash, HASH_BYTES_LEN};
use kms_eth::signing::{recover_signature, sign_message, sk2address, sk2pk};

fn generate_keypair() -> (Vec<u8>, Vec<u8>) {
    let (sec_key, pub_key) = secp256k1::SECP256K1.generate_keypair(&mut rand::thread_rng());
    let serialized = pub_key.serialize_uncompressed();
    (serialized[1..65].to_vec(), sec_key.secret_bytes().to_vec())
}

const DIGEST: [u8; HASH_BYTES_LEN] = [
    0xc5, 0xd2, 0x46, 0x01, 0x86, 0xf7, 0x23, 0x3c, 0x92, 0x7e, 0x7d, 0xb2, 0xdc, 0xc7, 0x03, 0xc0,
    0xe5, 0x00, 0xb6, 0x53, 0xca, 0x82, 0x27, 0x3b, 0x7b, 0xfa, 0xd8, 0x04, 0x5d, 0x85, 0xa4, 0x70,
];

#[test]
fn keccak_test() {
    let hash_empty: [u8; HASH_BYTES_LEN] = DIGEST;
    assert_eq!(hash_data(&[]), hash_empty.to_vec());
}

#[test]
fn test_data_hash() {
    let data = vec![1u8, 2, 3, 4, 5, 6, 7];
    let hash = hash_data(&data);
    assert!(verify_data_hash(&data, &hash).is_ok());
}

#[test]
fn test_signature() {
    let data: [u8; HASH_BYTES_LEN] = DIGEST;
    let (pubkey, privkey) = generate_keypair();
    let signature = sign_message(&pubkey, &privkey, &data).unwrap();
    assert_eq!(recover_signature(&data, &signature), Ok(pubkey));
}

#[test]
fn test_invalid_msg() {
    let mut invalid_msg = DIGEST.to_vec();
    invalid_msg.push(0x70);

    let (pubkey, privkey) = generate_keypair();
    assert_eq!(sign_message(&pubkey, &privkey, &invalid_msg), Err(CryptoError::Sign));

    let data: [u8; HASH_BYTES_LEN] = DIGEST;
    let (pubkey, privkey) = generate_keypair();
    let signature = sign_message(&pubkey, &privkey, &data).unwrap();
    assert_eq!(
        recover_signature(&invalid_msg, &signature),
        Err(CryptoError::SignatureRecovery)
    );
}

#[test]
fn hash_of_abc() {
    let expected =
        hex::decode("4e03657aea45a94fc7d47ba826c8d667c0d1e6e33a64a036ec44f58fa12d6c45").unwrap();
    assert_eq!(hash_data(b"abc"), expected);
    assert_eq!(hash_data(b"abc"), hash_data(b"abc"));
}

#[test]
fn verify_hash_errors() {
    let data = vec![1u8, 2, 3];
    let mut hash = hash_data(&data);
    assert_eq!(verify_data_hash(&data, &hash[..31]), Err(CryptoError::HashLength));
    assert_eq!(verify_data_hash(&data, &[]), Err(CryptoError::HashLength));
    hash.push(0);
    assert_eq!(verify_data_hash(&data, &hash), Err(CryptoError::HashLength));
    hash.pop();
    hash[0] ^= 1;
    assert_eq!(verify_data_hash(&data, &hash), Err(CryptoError::HashMismatch));
}

fn secret_one() -> Vec<u8> {
    let mut sk = vec![0u8; 32];
    sk[31] = 1;
    sk
}

#[test]
fn known_key_and_address() {
    let pk = sk2pk(&secret_one()).unwrap();
    let expected = hex::decode(
        "79be667ef9dcbbac55a06295ce870b07029bfcdb2dce28d959f2815b16f81798\
         483ada7726a3c4655da4fbfc0e1108a8fd17b448a68554199c47d08ffb10d4b8",
    )
    .unwrap();
    assert_eq!(pk, expected);
    let address = hex::decode("7e5f4552091a69125d5dfcb7b8c2659029395bdf").unwrap();
    assert_eq!(pk2address(&pk), address);
    assert_eq!(sk2address(&secret_one()), Ok(address));
}

#[test]
fn address_is_digest_tail() {
    let (pk, sk) = generate_keypair();
    let address = pk2address(&pk);
    assert_eq!(address.len(), 20);
    assert_eq!(address, hash_data(&pk)[12..].to_vec());
    assert_eq!(sk2address(&sk), Ok(address));
    assert_eq!(sk2pk(&sk), Ok(pk));
}

#[test]
fn invalid_secret_keys() {
    let zero = vec![0u8; 32];
    let order = hex::decode("fffffffffffffffffffffffffffffffebaaedce6af48a03bbfd25e8cd0364141")
        .unwrap();
    assert_eq!(sk2pk(&zero), Err(CryptoError::InvalidKey));
    assert_eq!(sk2pk(&order), Err(CryptoError::InvalidKey));
    assert_eq!(sk2pk(&[1u8; 31]), Err(CryptoError::InvalidKey));
    assert_eq!(sk2address(&zero), Err(CryptoError::InvalidKey));
    assert_eq!(sign_message(&[], &zero, &DIGEST), Err(CryptoError::InvalidKey));
    assert_eq!(sign_message(&[], &zero, &DIGEST[..31]), Err(CryptoError::Sign));
}

#[test]
fn signature_shape_and_determinism() {
    let sig = sign_message(&[], &secret_one(), &DIGEST).unwrap();
    assert_eq!(sig.len(), 65);
    assert!(sig[64] <= 3);
    assert_eq!(sign_message(&[], &secret_one(), &DIGEST).unwrap(), sig);
}

#[test]
fn recover_errors() {
    let sig = sign_message(&[], &secret_one(), &DIGEST).unwrap();
    assert_eq!(recover_signature(&DIGEST, &sig[..64]), Err(CryptoError::SignatureLength));
    let mut long = sig.clone();
    long.push(0);
    assert_eq!(recover_signature(&DIGEST, &long), Err(CryptoError::SignatureLength));
    let mut bad_id = sig.clone();
    bad_id[64] = 4;
    assert_eq!(recover_signature(&DIGEST, &bad_id), Err(CryptoError::SignatureRecovery));
    let zero_rs = vec![0u8; 65];
    assert_eq!(recover_signature(&DIGEST, &zero_rs), Err(CryptoError::SignatureRecovery));
}

#[test]
fn recover_other_message_gives_other_signer() {
    let (pk, sk) = generate_keypair();
    let sig = sign_message(&pk, &sk, &DIGEST).unwrap();
    let other = hash_data(b"another message");
    match recover_signature(&other, &sig) {
        Ok(recovered) => assert_ne!(pk2address(&recovered), pk2address(&pk)),
        Err(e) => assert_eq!(e, CryptoError::SignatureRecovery),
    }
}

#[test]
fn round_trip_with_fixed_key() {
    let pk = sk2pk(&secret_one()).unwrap();
    let sig = sign_message(&pk, &secret_one(), &DIGEST).unwrap();
    assert_eq!(recover_signature(&DIGEST, &sig), Ok(pk));
}

#[test]
fn largest_valid_secret_key() {
    let below_order =
        hex::decode("fffffffffffffffffffffffffffffffebaaedce6af48a03bbfd25e8cd0364140").unwrap();
    assert!(sk2pk(&below_order).is_ok());
}
