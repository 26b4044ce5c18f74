//! The entities that enrichment reads and builds, and the ways it can fail.

use vstd::prelude::*;
use crate::reward::{BlockHeader, RewardTraceEntry};

verus! {

/// Selects a block: by its height, or by a tag that the backend resolves.
#[derive(Clone, Copy, Debug, PartialEq, Eq, Structural)]
pub enum BlockNumberOrTag {
    Latest,
    Finalized,
    Safe,
    Earliest,
    Pending,
    Number(u64),
}

impl BlockNumberOrTag {
    /// The height that the identifier names, where it names one.
    pub open spec fn height(self) -> Option<u64> {
        match self {
            BlockNumberOrTag::Number(number) => Some(number),
            _ => None,
        }
    }

    /// The height that the identifier names, where it names one.
    pub fn as_number(&self) -> (res: Option<u64>)
        ensures
            res == self.height(),
    {
        match self {
            BlockNumberOrTag::Number(number) => Some(*number),
            _ => None,
        }
    }
}

/// A transaction as the block carries it: its hash, the sender that it
/// declares, and its typed encoding with the signature.
#[derive(Clone, Debug, PartialEq, Eq)]
pub struct Transaction {
    pub hash: [u8; 32],
    pub sender: [u8; 20],
    pub encoded: Vec<u8>,
}

/// The receipt of one transaction: the transaction's hash and the outcome of
/// its execution, which is carried through unread.
#[derive(Clone, Debug, PartialEq, Eq)]
pub struct Receipt<R> {
    pub transaction_hash: [u8; 32],
    pub outcome: R,
}

/// The trace of one transaction: the transaction's hash and the trace itself,
/// which is carried through unread.
#[derive(Clone, Debug, PartialEq, Eq)]
pub struct TraceResult<X> {
    pub transaction_hash: [u8; 32],
    pub full_trace: X,
}

/// A transaction with the public key of its signer, its receipt and its trace.
#[derive(Clone, Debug, PartialEq, Eq)]
pub struct EnrichedTransaction<R, X> {
    pub inner: Transaction,
    pub public_key: String,
    pub receipts: Receipt<R>,
    pub trace: X,
}

/// A withdrawal that a block carries.
#[derive(Clone, Copy, Debug, PartialEq, Eq)]
pub struct Withdrawal {
    pub index: u64,
    pub validator_index: u64,
    pub address: [u8; 20],
    pub amount: u64,
}

/// A block: its header, the hashes of its ommers, its transactions in order,
/// and its withdrawals where it has any.
#[derive(Clone, Debug, PartialEq, Eq)]
pub struct Block<T> {
    pub header: BlockHeader,
    pub uncles: Vec<[u8; 32]>,
    pub transactions: Vec<T>,
    pub withdrawals: Option<Vec<Withdrawal>>,
}

/// A block whose transactions are enriched, with the block's reward entries.
#[derive(Clone, Debug, PartialEq, Eq)]
pub struct EnrichedBlock<R, X> {
    pub inner: Block<EnrichedTransaction<R, X>>,
    pub rewards: Vec<RewardTraceEntry>,
}

/// What a failure of fetching or of shape is about: the traces, the receipts,
/// or the block itself.
#[derive(Clone, Copy, Debug, PartialEq, Eq, Structural)]
pub enum Source {
    Traces,
    Receipts,
    Block,
}

/// How one unit of fetching ended.
#[derive(Clone, Debug, PartialEq, Eq)]
pub enum TaskOutcome<T> {
    /// The unit did not run to completion.
    Aborted,
    /// The backend reported an error, with this detail.
    Failed(String),
    /// The backend had nothing for the block.
    Missing,
    /// The unit's result.
    Ready(T),
}

/// Why a block could not be enriched. Every failure ends the whole request.
#[derive(Clone, Debug, PartialEq, Eq)]
pub enum EnrichError {
    /// A unit of work did not run to completion.
    ConcurrencyFailure,
    /// The backend reported an error while fetching.
    BackendFailure { source: Source, detail: String },
    /// The backend had no result where the block asks for one.
    MissingResult(Source),
    /// A list is not as long as the block's list of transactions.
    ShapeMismatch(Source),
    /// A transaction's hash differs from that of its receipt or of its trace.
    HashMismatch([u8; 32]),
    /// The transaction's encoding is no envelope of a known kind.
    SignatureExtractionFailure([u8; 32]),
    /// The signature recovers to no public key.
    PublicKeyRecoveryFailure { tx_hash: [u8; 32], cause: String },
    /// The recovered address is not the sender that the transaction declares.
    AddressMismatch([u8; 32]),
}

/// An `EnrichError` as a mathematical value.
pub enum Failure {
    ConcurrencyFailure,
    BackendFailure { source: Source, detail: Seq<char> },
    MissingResult(Source),
    ShapeMismatch(Source),
    HashMismatch(Seq<u8>),
    SignatureExtractionFailure(Seq<u8>),
    PublicKeyRecoveryFailure { tx_hash: Seq<u8>, cause: Seq<char> },
    AddressMismatch(Seq<u8>),
}

impl Failure {
    /// The numeric kind under which a failure is reported: 2 for a backend
    /// error or a missing result of the receipts and for a hash mismatch, 1
    /// for every other failure.
    pub open spec fn code(self) -> int {
        match self {
            Failure::BackendFailure { source: Source::Receipts, .. } => 2,
            Failure::MissingResult(Source::Receipts) => 2,
            Failure::HashMismatch(_) => 2,
            _ => 1,
        }
    }
}

impl View for EnrichError {
    type V = Failure;

    open spec fn view(&self) -> Failure {
        match *self {
            EnrichError::ConcurrencyFailure => Failure::ConcurrencyFailure,
            EnrichError::BackendFailure { source, detail } => Failure::BackendFailure { source, detail: detail@ },
            EnrichError::MissingResult(source) => Failure::MissingResult(source),
            EnrichError::ShapeMismatch(source) => Failure::ShapeMismatch(source),
            EnrichError::HashMismatch(hash) => Failure::HashMismatch(hash@),
            EnrichError::SignatureExtractionFailure(hash) => Failure::SignatureExtractionFailure(hash@),
            EnrichError::PublicKeyRecoveryFailure { tx_hash, cause } => Failure::PublicKeyRecoveryFailure {
                tx_hash: tx_hash@,
                cause: cause@,
            },
            EnrichError::AddressMismatch(hash) => Failure::AddressMismatch(hash@),
        }
    }
}

impl EnrichError {
    /// The numeric kind under which the failure is reported.
    pub fn code(&self) -> (res: i32)
        ensures
            res == self@.code(),
    {
        match self {
            EnrichError::BackendFailure { source: Source::Receipts, .. } => 2,
            EnrichError::MissingResult(Source::Receipts) => 2,
            EnrichError::HashMismatch(_) => 2,
            _ => 1,
        }
    }
}

} // verus!
