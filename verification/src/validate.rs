//! The checks that every transaction of a block has to pass: its receipt and
//! its trace are its own, and its signature recovers to its declared sender.

use vstd::prelude::*;
use crate::encoding::{bytes_equal, compressed_point, prefixed_hex};
use crate::model::{EnrichError, Failure, Receipt, Source, TraceResult, Transaction};
use crate::signature::{
    decode_envelope, decoded_envelope, payload_point, point_address, recover_identity,
    RecoveredIdentity, TxEnvelope,
};

verus! {

/// The address that a transaction's signature recovers to, where its encoding
/// is an envelope of a known kind and the signature recovers to a key.
pub open spec fn recovered_address(tx: Transaction) -> Option<Seq<u8>> {
    match decoded_envelope(tx.encoded@) {
        None => None,
        Some(envelope) => match payload_point(envelope.payload()) {
            Err(_) => None,
            Ok(point) => Some(point_address(point)),
        },
    }
}

/// What the recovery of a transaction's signer ends in, given the envelope
/// that its encoding holds: the public key as text, or the failure.
pub open spec fn envelope_key(tx: Transaction, envelope: Option<TxEnvelope>) -> Result<Seq<char>, Failure> {
    match envelope {
        None => Err(Failure::SignatureExtractionFailure(tx.hash@)),
        Some(envelope) => match payload_point(envelope.payload()) {
            Err(cause) => Err(Failure::PublicKeyRecoveryFailure { tx_hash: tx.hash@, cause }),
            Ok(point) => if point_address(point) == tx.sender@ {
                Ok(prefixed_hex(compressed_point(point)))
            } else {
                Err(Failure::AddressMismatch(tx.hash@))
            },
        },
    }
}

/// What the recovery of a transaction's signer ends in.
pub open spec fn signer_key(tx: Transaction) -> Result<Seq<char>, Failure> {
    envelope_key(tx, decoded_envelope(tx.encoded@))
}

/// What the checks of one transaction end in, given the hashes that its
/// receipt and its trace carry: a hash mismatch comes before anything about
/// the signature.
pub open spec fn transaction_key(tx: Transaction, receipt_hash: Seq<u8>, trace_hash: Seq<u8>) -> Result<Seq<char>, Failure> {
    if tx.hash@ != receipt_hash || tx.hash@ != trace_hash {
        Err(Failure::HashMismatch(tx.hash@))
    } else {
        signer_key(tx)
    }
}

/// What the checks of the transaction at place `i` end in.
pub open spec fn outcome_at<R, X>(
    transactions: Seq<Transaction>,
    receipts: Seq<Receipt<R>>,
    traces: Seq<TraceResult<X>>,
    i: int,
) -> Result<Seq<char>, Failure> {
    transaction_key(transactions[i], receipts[i].transaction_hash@, traces[i].transaction_hash@)
}

/// The failure of the first transaction among the first `upto` that fails its
/// checks, if one does.
pub open spec fn first_failure<R, X>(
    transactions: Seq<Transaction>,
    receipts: Seq<Receipt<R>>,
    traces: Seq<TraceResult<X>>,
    upto: nat,
) -> Option<Failure>
    decreases upto,
{
    if upto == 0 {
        None
    } else {
        match first_failure(transactions, receipts, traces, (upto - 1) as nat) {
            Some(failure) => Some(failure),
            None => match outcome_at(transactions, receipts, traces, upto - 1) {
                Err(failure) => Some(failure),
                Ok(_) => None,
            },
        }
    }
}

/// Why a block cannot be enriched, if it cannot: the receipts are not as many
/// as the transactions; else the traces are not; else the first transaction
/// that fails its checks decides.
pub open spec fn enrich_failure<R, X>(
    transactions: Seq<Transaction>,
    receipts: Seq<Receipt<R>>,
    traces: Seq<TraceResult<X>>,
) -> Option<Failure> {
    if receipts.len() != transactions.len() {
        Some(Failure::ShapeMismatch(Source::Receipts))
    } else if traces.len() != transactions.len() {
        Some(Failure::ShapeMismatch(Source::Traces))
    } else {
        first_failure(transactions, receipts, traces, transactions.len())
    }
}

/// A failure among the first `upto` transactions is the failure among any
/// longer run of them.
pub proof fn first_failure_persists<R, X>(
    transactions: Seq<Transaction>,
    receipts: Seq<Receipt<R>>,
    traces: Seq<TraceResult<X>>,
    upto: nat,
    later: nat,
)
    requires
        upto <= later,
        first_failure(transactions, receipts, traces, upto).is_some(),
    ensures
        first_failure(transactions, receipts, traces, later) == first_failure(transactions, receipts, traces, upto),
    decreases later,
{
    if upto < later {
        first_failure_persists(transactions, receipts, traces, upto, (later - 1) as nat);
    }
}

/// Where none of the first `upto` transactions fails, each of them passes.
pub proof fn no_failure_means_all_pass<R, X>(
    transactions: Seq<Transaction>,
    receipts: Seq<Receipt<R>>,
    traces: Seq<TraceResult<X>>,
    upto: nat,
)
    requires
        first_failure(transactions, receipts, traces, upto).is_none(),
    ensures
        forall|i: int| 0 <= i < upto ==> (#[trigger] outcome_at(transactions, receipts, traces, i)).is_ok(),
    decreases upto,
{
    if upto > 0 {
        no_failure_means_all_pass(transactions, receipts, traces, (upto - 1) as nat);
    }
}

/// Where a block passes its checks, the signature of every transaction
/// recovers to the sender that the transaction declares, and the hashes of
/// each transaction, its receipt and its trace agree.
pub proof fn passing_block_recovers_every_sender<R, X>(
    transactions: Seq<Transaction>,
    receipts: Seq<Receipt<R>>,
    traces: Seq<TraceResult<X>>,
)
    requires
        enrich_failure(transactions, receipts, traces).is_none(),
    ensures
        receipts.len() == transactions.len(),
        traces.len() == transactions.len(),
        forall|i: int| 0 <= i < transactions.len() ==> {
            &&& recovered_address(#[trigger] transactions[i]) == Some(transactions[i].sender@)
            &&& receipts[i].transaction_hash@ == transactions[i].hash@
            &&& traces[i].transaction_hash@ == transactions[i].hash@
        },
{
    no_failure_means_all_pass(transactions, receipts, traces, transactions.len());
    assert forall|i: int| 0 <= i < transactions.len() implies {
        &&& recovered_address(#[trigger] transactions[i]) == Some(transactions[i].sender@)
        &&& receipts[i].transaction_hash@ == transactions[i].hash@
        &&& traces[i].transaction_hash@ == transactions[i].hash@
    } by {
        assert(outcome_at(transactions, receipts, traces, i).is_ok());
    }
}

/// Holds the hash of a transaction against those of its receipt and its trace.
pub fn check_hashes(tx_hash: &[u8; 32], receipt_hash: &[u8; 32], trace_hash: &[u8; 32]) -> (res: Result<(), EnrichError>)
    ensures
        res.is_ok() == (tx_hash@ == receipt_hash@ && tx_hash@ == trace_hash@),
        res.is_err() ==> res.unwrap_err()@ == Failure::HashMismatch(tx_hash@),
{
    if !bytes_equal(tx_hash, receipt_hash) || !bytes_equal(tx_hash, trace_hash) {
        Err(EnrichError::HashMismatch(*tx_hash))
    } else {
        Ok(())
    }
}

/// Holds a recovered identity against the sender that the transaction
/// declares, and hands out the public key where they agree.
pub fn check_identity(tx: &Transaction, identity: RecoveredIdentity) -> (res: Result<String, EnrichError>)
    ensures
        res.is_ok() == (identity.address@ == tx.sender@),
        res.is_ok() ==> res.unwrap() == identity.public_key,
        res.is_err() ==> res.unwrap_err()@ == Failure::AddressMismatch(tx.hash@),
{
    if bytes_equal(&identity.address, &tx.sender) {
        Ok(identity.public_key)
    } else {
        Err(EnrichError::AddressMismatch(tx.hash))
    }
}

/// Recovers the signer of a transaction from the envelope that its encoding
/// holds, and checks it against the declared sender.
pub fn verify_envelope(tx: &Transaction, envelope: Option<TxEnvelope>) -> (res: Result<String, EnrichError>)
    ensures
        match envelope_key(*tx, envelope) {
            Ok(key) => res.is_ok() && res.unwrap()@ == key,
            Err(failure) => res.is_err() && res.unwrap_err()@ == failure,
        },
{
    let envelope = match envelope {
        Some(envelope) => envelope,
        None => {
            return Err(EnrichError::SignatureExtractionFailure(tx.hash));
        },
    };
    match recover_identity(&envelope) {
        Ok(identity) => check_identity(tx, identity),
        Err(cause) => Err(EnrichError::PublicKeyRecoveryFailure { tx_hash: tx.hash, cause }),
    }
}

/// Recovers the signer of a transaction and checks it against the declared
/// sender.
pub fn verify_signer(tx: &Transaction) -> (res: Result<String, EnrichError>)
    ensures
        match signer_key(*tx) {
            Ok(key) => res.is_ok() && res.unwrap()@ == key,
            Err(failure) => res.is_err() && res.unwrap_err()@ == failure,
        },
{
    verify_envelope(tx, decode_envelope(&tx.encoded))
}

/// Runs the checks of one transaction against its receipt and its trace.
pub fn check_transaction<R, X>(tx: &Transaction, receipt: &Receipt<R>, trace: &TraceResult<X>) -> (res: Result<String, EnrichError>)
    ensures
        match transaction_key(*tx, receipt.transaction_hash@, trace.transaction_hash@) {
            Ok(key) => res.is_ok() && res.unwrap()@ == key,
            Err(failure) => res.is_err() && res.unwrap_err()@ == failure,
        },
{
    match check_hashes(&tx.hash, &receipt.transaction_hash, &trace.transaction_hash) {
        Err(e) => Err(e),
        Ok(_) => verify_signer(tx),
    }
}

/// Checks a block's transactions against its receipts and traces, place by
/// place, and returns the public key of each signer. The first check that
/// fails ends it.
pub fn validate_block<R, X>(
    transactions: &Vec<Transaction>,
    receipts: &Vec<Receipt<R>>,
    traces: &Vec<TraceResult<X>>,
) -> (res: Result<Vec<String>, EnrichError>)
    ensures
        match enrich_failure(transactions@, receipts@, traces@) {
            Some(failure) => res.is_err() && res.unwrap_err()@ == failure,
            None => {
                &&& res.is_ok()
                &&& res.unwrap()@.len() == transactions@.len()
                &&& forall|i: int| 0 <= i < transactions@.len() ==> outcome_at(transactions@, receipts@, traces@, i) == Ok::<Seq<char>, Failure>(#[trigger] res.unwrap()@[i]@)
            },
        },
{
    if receipts.len() != transactions.len() {
        return Err(EnrichError::ShapeMismatch(Source::Receipts));
    }
    if traces.len() != transactions.len() {
        return Err(EnrichError::ShapeMismatch(Source::Traces));
    }
    let mut keys: Vec<String> = Vec::new();
    let mut i: usize = 0;
    while i < transactions.len()
        invariant
            i <= transactions@.len(),
            receipts@.len() == transactions@.len(),
            traces@.len() == transactions@.len(),
            keys@.len() == i,
            first_failure(transactions@, receipts@, traces@, i as nat).is_none(),
            forall|j: int| 0 <= j < i ==> outcome_at(transactions@, receipts@, traces@, j) == Ok::<Seq<char>, Failure>(#[trigger] keys@[j]@),
        decreases transactions@.len() - i,
    {
        match check_transaction(&transactions[i], &receipts[i], &traces[i]) {
            Ok(key) => {
                keys.push(key);
            },
            Err(e) => {
                proof {
                    first_failure_persists(transactions@, receipts@, traces@, (i + 1) as nat, transactions@.len());
                }
                return Err(e);
            },
        }
        i = i + 1;
    }
    Ok(keys)
}

} // verus!
