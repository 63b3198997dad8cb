use vstd::prelude::*;
use rayon::iter::{IntoParallelRefIterator, ParallelIterator};

use cita_cloud_proto::blockchain::{Transaction, UtxoTransaction};

use crate::error::CryptoError;
use crate::hashing::{address_of, pk2address, verify_data_hash, verify_hash_spec};
use crate::signing::{recover_signature, recover_spec};

verus! {

#[verifier::external_type_specification]
#[verifier::external_body]
pub struct ExTransaction(Transaction);

#[verifier::external_type_specification]
#[verifier::external_body]
pub struct ExUtxoTransaction(UtxoTransaction);

#[verifier::external_type_specification]
#[verifier::external_body]
pub struct ExEncodeError(prost::EncodeError);

/// A signature together with the address that claims to have made it.
pub struct Witness {
    pub signature: Vec<u8>,
    pub sender: Vec<u8>,
}

/// A transaction authorised by at most one witness.
pub struct UnverifiedTransaction {
    pub transaction: Option<Transaction>,
    pub transaction_hash: Vec<u8>,
    pub witness: Option<Witness>,
}

/// A transaction that carries a sequence of witnesses.
pub struct UnverifiedUtxoTransaction {
    pub transaction: Option<UtxoTransaction>,
    pub transaction_hash: Vec<u8>,
    pub witnesses: Vec<Witness>,
}

/// A transaction record as submitted: single-signed, multi-signed, or absent.
pub enum RawTransaction {
    NormalTx(UnverifiedTransaction),
    UtxoTx(UnverifiedUtxoTransaction),
    Absent,
}

/// A batch of transaction records.
pub struct RawTransactions {
    pub body: Vec<RawTransaction>,
}

/// What checking one witness against the digest `hash` yields: the signer
/// is recovered and its address compared with the claimed sender.
pub open spec fn signer_outcome(hash: Seq<u8>, w: Witness) -> Result<(), CryptoError> {
    match recover_spec(hash, w.signature@) {
        Ok(pk) => if address_of(pk) == w.sender@ {
            Ok(())
        } else {
            Err(CryptoError::SignerMismatch)
        },
        Err(e) => Err(e),
    }
}

/// What checking a single-signed transaction yields, given its encoded payload.
pub open spec fn normal_outcome(encoded: Seq<u8>, hash: Seq<u8>, w: Witness) -> Result<
    (),
    CryptoError,
> {
    match verify_hash_spec(encoded, hash) {
        Ok(_) => signer_outcome(hash, w),
        Err(e) => Err(e),
    }
}

/// What checking a multi-signed transaction yields, given its encoded payload.
pub open spec fn utxo_outcome(encoded: Seq<u8>, hash: Seq<u8>, ws: Seq<Witness>) -> Result<
    (),
    CryptoError,
> {
    if ws.len() != 1 {
        Err(CryptoError::InvalidWitnessSet)
    } else {
        match verify_hash_spec(encoded, hash) {
            Ok(_) => signer_outcome(hash, ws[0]),
            Err(e) => Err(e),
        }
    }
}

/// The protobuf encoding of a transaction payload.
pub uninterp spec fn transaction_bytes(tx: Transaction) -> Seq<u8>;

/// The protobuf encoding of a multi-signed transaction payload.
pub uninterp spec fn utxo_transaction_bytes(tx: UtxoTransaction) -> Seq<u8>;

/// What checking the record `tx` yields.
pub open spec fn record_outcome(tx: RawTransaction) -> Result<(), CryptoError> {
    match tx {
        RawTransaction::Absent => Err(CryptoError::MissingRecord),
        RawTransaction::NormalTx(n) => match n.witness {
            None => Err(CryptoError::MissingWitness),
            Some(w) => match n.transaction {
                None => Err(CryptoError::MissingPayload),
                Some(t) => normal_outcome(transaction_bytes(t), n.transaction_hash@, w),
            },
        },
        RawTransaction::UtxoTx(u) => if u.witnesses@.len() != 1 {
            Err(CryptoError::InvalidWitnessSet)
        } else {
            match u.transaction {
                None => Err(CryptoError::MissingPayload),
                Some(t) => utxo_outcome(utxo_transaction_bytes(t), u.transaction_hash@, u.witnesses@),
            }
        },
    }
}

/// The outcome of each record of a batch, in order.
pub open spec fn batch_outcomes(txs: Seq<RawTransaction>) -> Seq<Result<(), CryptoError>> {
    txs.map_values(|t: RawTransaction| record_outcome(t))
}

/// Whether `r` is what a batch with per-record outcomes `outs` reduces to:
/// success where every record passed, else the first failure.
pub open spec fn reduces_to(outs: Seq<Result<(), CryptoError>>, r: Result<(), CryptoError>) -> bool {
    &&& (r is Ok <==> forall|i: int| 0 <= i < outs.len() ==> #[trigger] outs[i] is Ok)
    &&& (r is Err ==> exists|i: int|
        0 <= i < outs.len() && outs[i] == r && forall|j: int| 0 <= j < i ==> #[trigger] outs[j] is Ok)
}

/// Relies on prost's `Message::encode` into a fresh `Vec<u8>`: the encoding
/// is a function of the message, and it fails only where the buffer has less
/// room than the encoding needs, which a `Vec` always has.
#[verifier::external_body]
fn encode_transaction(tx: &Transaction) -> (r: Result<Vec<u8>, prost::EncodeError>)
    ensures
        r is Ok,
        r is Ok ==> r->Ok_0@ == transaction_bytes(*tx),
{
    let mut buf: Vec<u8> = Vec::new();
    prost::Message::encode(tx, &mut buf)?;
    Ok(buf)
}

/// Relies on prost's `Message::encode` into a fresh `Vec<u8>`: the encoding
/// is a function of the message, and it fails only where the buffer has less
/// room than the encoding needs, which a `Vec` always has.
#[verifier::external_body]
fn encode_utxo_transaction(tx: &UtxoTransaction) -> (r: Result<Vec<u8>, prost::EncodeError>)
    ensures
        r is Ok,
        r is Ok ==> r->Ok_0@ == utxo_transaction_bytes(*tx),
{
    let mut buf: Vec<u8> = Vec::new();
    prost::Message::encode(tx, &mut buf)?;
    Ok(buf)
}

/// Relies on rayon's `par_iter`, `map` and `collect` into a `Vec`, which runs
/// `crypto_check` once for each record and keeps the records' order.
#[verifier::external_body]
fn check_each_parallel(txs: &Vec<RawTransaction>) -> (r: Vec<Result<(), CryptoError>>)
    ensures
        r@.len() == txs@.len(),
        forall|i: int| 0 <= i < r@.len() ==> #[trigger] r@[i] == record_outcome(txs@[i]),
{
    txs.par_iter().map(crypto_check).collect()
}

/// Checks one witness: the signer recovered from `hash` must have the
/// claimed sender's address.
fn check_witness(hash: &[u8], w: &Witness) -> (r: Result<(), CryptoError>)
    ensures
        r == signer_outcome(hash@, *w),
{
    let pk = recover_signature(hash, w.signature.as_slice())?;
    let address = pk2address(pk.as_slice());
    if crate::hashing::bytes_equal(address.as_slice(), w.sender.as_slice()) {
        Ok(())
    } else {
        Err(CryptoError::SignerMismatch)
    }
}

/// Checks a single-signed transaction whose payload encodes to `encoded`:
/// the digest must match, then the signer must be the claimed sender.
pub fn check_normal_encoded(encoded: &[u8], transaction_hash: &[u8], witness: &Witness) -> (r:
    Result<(), CryptoError>)
    ensures
        r == normal_outcome(encoded@, transaction_hash@, *witness),
{
    verify_data_hash(encoded, transaction_hash)?;
    check_witness(transaction_hash, witness)
}

/// Checks a multi-signed transaction whose payload encodes to `encoded`:
/// exactly one witness, a matching digest, then each witness's signer must
/// be its claimed sender.
pub fn check_utxo_encoded(encoded: &[u8], transaction_hash: &[u8], witnesses: &Vec<Witness>) -> (r:
    Result<(), CryptoError>)
    ensures
        r == utxo_outcome(encoded@, transaction_hash@, witnesses@),
{
    if witnesses.len() != 1 {
        return Err(CryptoError::InvalidWitnessSet);
    }
    verify_data_hash(encoded, transaction_hash)?;
    let mut i: usize = 0;
    while i < witnesses.len()
        invariant
            witnesses@.len() == 1,
            verify_hash_spec(encoded@, transaction_hash@) == Ok::<(), CryptoError>(()),
            0 <= i <= 1,
            i == 1 ==> signer_outcome(transaction_hash@, witnesses@[0]) == Ok::<(), CryptoError>(()),
        decreases 1 - i,
    {
        check_witness(transaction_hash, &witnesses[i])?;
        i = i + 1;
    }
    Ok(())
}

/// Checks one transaction record: its shape, its payload's digest, and that
/// each witness was signed by its claimed sender.
pub fn crypto_check(raw_tx: &RawTransaction) -> (r: Result<(), CryptoError>)
    ensures
        r == record_outcome(*raw_tx),
{
    match raw_tx {
        RawTransaction::NormalTx(normal_tx) => {
            match &normal_tx.witness {
                None => Err(CryptoError::MissingWitness),
                Some(witness) => match &normal_tx.transaction {
                    None => Err(CryptoError::MissingPayload),
                    Some(tx) => match encode_transaction(tx) {
                        Err(_) => Err(CryptoError::PayloadEncoding),
                        Ok(bytes) => {
                            let r = check_normal_encoded(
                                bytes.as_slice(),
                                normal_tx.transaction_hash.as_slice(),
                                witness,
                            );
                            r
                        },
                    },
                },
            }
        },
        RawTransaction::UtxoTx(utxo_tx) => {
            if utxo_tx.witnesses.len() != 1 {
                return Err(CryptoError::InvalidWitnessSet);
            }
            match &utxo_tx.transaction {
                None => Err(CryptoError::MissingPayload),
                Some(tx) => match encode_utxo_transaction(tx) {
                    Err(_) => Err(CryptoError::PayloadEncoding),
                    Ok(bytes) => {
                        let r = check_utxo_encoded(
                            bytes.as_slice(),
                            utxo_tx.transaction_hash.as_slice(),
                            &utxo_tx.witnesses,
                        );
                        r
                    },
                },
            }
        },
        RawTransaction::Absent => Err(CryptoError::MissingRecord),
    }
}

/// Reduces per-record outcomes to one: success where all passed, else the
/// first failure in record order.
pub fn fold_outcomes(outs: &Vec<Result<(), CryptoError>>) -> (r: Result<(), CryptoError>)
    ensures
        reduces_to(outs@, r),
{
    let mut i: usize = 0;
    while i < outs.len()
        invariant
            0 <= i <= outs@.len(),
            forall|j: int| 0 <= j < i ==> #[trigger] outs@[j] is Ok,
        decreases outs@.len() - i,
    {
        if outs[i].is_err() {
            return outs[i];
        }
        i = i + 1;
    }
    Ok(())
}

/// Checks every record of a batch, in parallel: the outcome of each record,
/// in the batch's order.
pub fn crypto_check_each(raw_txs: &RawTransactions) -> (r: Vec<Result<(), CryptoError>>)
    ensures
        r@ == batch_outcomes(raw_txs.body@),
{
    let outs = check_each_parallel(&raw_txs.body);
    assert(outs@ =~= batch_outcomes(raw_txs.body@));
    outs
}

/// Checks every record of a batch, in parallel. Success where every record
/// passes, else the failure of the first failing record.
pub fn crypto_check_batch(raw_txs: &RawTransactions) -> (r: Result<(), CryptoError>)
    ensures
        reduces_to(batch_outcomes(raw_txs.body@), r),
{
    let outs = crypto_check_each(raw_txs);
    fold_outcomes(&outs)
}

/// A single-signed record whose digest matches its payload and whose
/// signature recovers a key with the claimed sender's address passes. With
/// the same signature and another claimed sender it fails with
/// `SignerMismatch`, as does any witness whose signature recovers a key with
/// an address other than its claimed sender's.
pub proof fn lemma_single_signed(encoded: Seq<u8>, hash: Seq<u8>, w: Witness, other: Witness)
    requires
        verify_hash_spec(encoded, hash) == Ok::<(), CryptoError>(()),
        recover_spec(hash, w.signature@) is Ok,
        address_of(recover_spec(hash, w.signature@)->Ok_0) == w.sender@,
    ensures
        normal_outcome(encoded, hash, w) == Ok::<(), CryptoError>(()),
        other.signature@ == w.signature@ && other.sender@ != w.sender@ ==> normal_outcome(
            encoded,
            hash,
            other,
        ) == Err::<(), CryptoError>(CryptoError::SignerMismatch),
        recover_spec(hash, other.signature@) is Ok && address_of(
            recover_spec(hash, other.signature@)->Ok_0,
        ) != other.sender@ ==> normal_outcome(encoded, hash, other) == Err::<(), CryptoError>(
            CryptoError::SignerMismatch,
        ),
{
}

/// A multi-signed record without exactly one witness fails with
/// `InvalidWitnessSet`, whatever its signatures, digest or payload.
pub proof fn lemma_witness_set(tx: RawTransaction, encoded: Seq<u8>)
    requires
        tx is UtxoTx,
        tx->UtxoTx_0.witnesses@.len() != 1,
    ensures
        record_outcome(tx) == Err::<(), CryptoError>(CryptoError::InvalidWitnessSet),
        utxo_outcome(encoded, tx->UtxoTx_0.transaction_hash@, tx->UtxoTx_0.witnesses@) == Err::<
            (),
            CryptoError,
        >(CryptoError::InvalidWitnessSet),
{
}

/// A batch passes exactly when every record passed; one failing record
/// among any number of passing ones makes the batch fail.
pub proof fn lemma_batch_outcome(outs: Seq<Result<(), CryptoError>>, r: Result<(), CryptoError>)
    requires
        reduces_to(outs, r),
    ensures
        r is Ok <==> forall|i: int| 0 <= i < outs.len() ==> #[trigger] outs[i] is Ok,
        forall|i: int| 0 <= i < outs.len() && #[trigger] outs[i] is Err ==> r is Err,
{
}

} // verus!
