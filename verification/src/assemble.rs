//! Assembly of the enriched block from what the checks let through.

use vstd::prelude::*;
use crate::model::{
    Block, EnrichError, EnrichedBlock, EnrichedTransaction, Failure, Receipt, TraceResult,
    Transaction,
};
use crate::reward::RewardTraceEntry;
use crate::validate::{enrich_failure, outcome_at, recovered_address, validate_block};

verus! {

/// Whether `out` joins, place by place, each transaction with its public key,
/// its receipt and its trace.
pub open spec fn joins_transactions<R, X>(
    transactions: Seq<Transaction>,
    receipts: Seq<Receipt<R>>,
    traces: Seq<TraceResult<X>>,
    keys: Seq<String>,
    out: Seq<EnrichedTransaction<R, X>>,
) -> bool {
    &&& out.len() == transactions.len()
    &&& forall|i: int| 0 <= i < out.len() ==> {
        &&& (#[trigger] out[i]).inner == transactions[i]
        &&& out[i].public_key == keys[i]
        &&& out[i].receipts == receipts[i]
        &&& out[i].trace == traces[i].full_trace
    }
}

/// Whether `out` is the enrichment of `block`: header, ommer hashes and
/// withdrawals as they were, the rewards as given, and in place of each
/// transaction the transaction itself with its receipt, its trace and the
/// public key that its signature recovers to.
pub open spec fn is_enrichment<R, X>(
    block: Block<Transaction>,
    receipts: Seq<Receipt<R>>,
    traces: Seq<TraceResult<X>>,
    rewards: Seq<RewardTraceEntry>,
    out: EnrichedBlock<R, X>,
) -> bool {
    &&& out.inner.header == block.header
    &&& out.inner.uncles == block.uncles
    &&& out.inner.withdrawals == block.withdrawals
    &&& out.rewards@ == rewards
    &&& out.inner.transactions@.len() == block.transactions@.len()
    &&& forall|i: int| 0 <= i < block.transactions@.len() ==> {
        &&& (#[trigger] out.inner.transactions@[i]).inner == block.transactions@[i]
        &&& out.inner.transactions@[i].receipts == receipts[i]
        &&& out.inner.transactions@[i].trace == traces[i].full_trace
        &&& outcome_at(block.transactions@, receipts, traces, i) == Ok::<Seq<char>, Failure>(out.inner.transactions@[i].public_key@)
    }
}

/// Joins each transaction with its public key, its receipt and its trace, in
/// the order of the transactions.
pub fn assemble_transactions<R, X>(
    transactions: Vec<Transaction>,
    receipts: Vec<Receipt<R>>,
    traces: Vec<TraceResult<X>>,
    keys: Vec<String>,
) -> (out: Vec<EnrichedTransaction<R, X>>)
    requires
        receipts@.len() == transactions@.len(),
        traces@.len() == transactions@.len(),
        keys@.len() == transactions@.len(),
    ensures
        joins_transactions(transactions@, receipts@, traces@, keys@, out@),
{
    let ghost all_transactions = transactions@;
    let ghost all_receipts = receipts@;
    let ghost all_traces = traces@;
    let ghost all_keys = keys@;
    let ghost n = transactions@.len() as int;
    let mut transactions = transactions;
    let mut receipts = receipts;
    let mut traces = traces;
    let mut keys = keys;
    let mut reversed: Vec<EnrichedTransaction<R, X>> = Vec::new();
    while transactions.len() > 0
        invariant
            n == all_transactions.len(),
            transactions@.len() + reversed@.len() == n,
            transactions@ == all_transactions.subrange(0, transactions@.len() as int),
            receipts@ == all_receipts.subrange(0, transactions@.len() as int),
            traces@ == all_traces.subrange(0, transactions@.len() as int),
            keys@ == all_keys.subrange(0, transactions@.len() as int),
            all_receipts.len() == n,
            all_traces.len() == n,
            all_keys.len() == n,
            forall|j: int| 0 <= j < reversed@.len() ==> {
                &&& (#[trigger] reversed@[j]).inner == all_transactions[n - 1 - j]
                &&& reversed@[j].public_key == all_keys[n - 1 - j]
                &&& reversed@[j].receipts == all_receipts[n - 1 - j]
                &&& reversed@[j].trace == all_traces[n - 1 - j].full_trace
            },
        decreases transactions@.len(),
    {
        let ghost rest = transactions@.len() - 1;
        let inner = transactions.pop().unwrap();
        let receipt = receipts.pop().unwrap();
        let trace = traces.pop().unwrap();
        let public_key = keys.pop().unwrap();
        reversed.push(EnrichedTransaction { inner, public_key, receipts: receipt, trace: trace.full_trace });
        assert(transactions@ =~= all_transactions.subrange(0, rest));
        assert(receipts@ =~= all_receipts.subrange(0, rest));
        assert(traces@ =~= all_traces.subrange(0, rest));
        assert(keys@ =~= all_keys.subrange(0, rest));
    }
    let ghost turned = reversed@;
    let mut out: Vec<EnrichedTransaction<R, X>> = Vec::new();
    while reversed.len() > 0
        invariant
            turned.len() == n,
            reversed@.len() + out@.len() == n,
            reversed@ == turned.subrange(0, reversed@.len() as int),
            forall|j: int| 0 <= j < out@.len() ==> #[trigger] out@[j] == turned[n - 1 - j],
        decreases reversed@.len(),
    {
        let ghost rest = reversed@.len() - 1;
        let item = reversed.pop().unwrap();
        out.push(item);
        assert(reversed@ =~= turned.subrange(0, rest));
    }
    out
}

/// Builds the enriched block from a block whose transactions passed their
/// checks.
pub fn assemble_block<R, X>(
    block: Block<Transaction>,
    receipts: Vec<Receipt<R>>,
    traces: Vec<TraceResult<X>>,
    keys: Vec<String>,
    rewards: Vec<RewardTraceEntry>,
) -> (out: EnrichedBlock<R, X>)
    requires
        receipts@.len() == block.transactions@.len(),
        traces@.len() == block.transactions@.len(),
        keys@.len() == block.transactions@.len(),
    ensures
        out.inner.header == block.header,
        out.inner.uncles == block.uncles,
        out.inner.withdrawals == block.withdrawals,
        out.rewards == rewards,
        joins_transactions(block.transactions@, receipts@, traces@, keys@, out.inner.transactions@),
{
    let Block { header, uncles, transactions, withdrawals } = block;
    let enriched = assemble_transactions(transactions, receipts, traces, keys);
    EnrichedBlock { inner: Block { header, uncles, transactions: enriched, withdrawals }, rewards }
}

/// Enriches a block with its receipts, traces and rewards: all of it, or the
/// failure of the first check that fails, never a part.
pub fn enrich_block<R, X>(
    block: Block<Transaction>,
    receipts: Vec<Receipt<R>>,
    traces: Vec<TraceResult<X>>,
    rewards: Vec<RewardTraceEntry>,
) -> (res: Result<EnrichedBlock<R, X>, EnrichError>)
    ensures
        match enrich_failure(block.transactions@, receipts@, traces@) {
            Some(failure) => res matches Err(e) && e@ == failure,
            None => res matches Ok(out) && is_enrichment(block, receipts@, traces@, rewards@, out),
        },
{
    match validate_block(&block.transactions, &receipts, &traces) {
        Err(e) => Err(e),
        Ok(keys) => Ok(assemble_block(block, receipts, traces, keys, rewards)),
    }
}

/// An enriched block has as many transactions as the block, each in its
/// place, and the hashes of each transaction, its receipt and its trace agree.
pub proof fn enrichment_keeps_every_transaction<R, X>(
    block: Block<Transaction>,
    receipts: Seq<Receipt<R>>,
    traces: Seq<TraceResult<X>>,
    rewards: Seq<RewardTraceEntry>,
    out: EnrichedBlock<R, X>,
)
    requires
        is_enrichment(block, receipts, traces, rewards, out),
    ensures
        out.inner.transactions@.len() == block.transactions@.len(),
        forall|i: int| 0 <= i < block.transactions@.len() ==> {
            &&& (#[trigger] out.inner.transactions@[i]).inner.hash@ == block.transactions@[i].hash@
            &&& out.inner.transactions@[i].inner.hash@ == out.inner.transactions@[i].receipts.transaction_hash@
            &&& out.inner.transactions@[i].inner.hash@ == traces[i].transaction_hash@
        },
{
}

/// In an enriched block the signature of every transaction recovers to the
/// sender that the transaction declares.
pub proof fn enrichment_recovers_every_sender<R, X>(
    block: Block<Transaction>,
    receipts: Seq<Receipt<R>>,
    traces: Seq<TraceResult<X>>,
    rewards: Seq<RewardTraceEntry>,
    out: EnrichedBlock<R, X>,
)
    requires
        is_enrichment(block, receipts, traces, rewards, out),
    ensures
        forall|i: int| 0 <= i < out.inner.transactions@.len() ==> recovered_address((#[trigger] out.inner.transactions@[i]).inner) == Some(out.inner.transactions@[i].inner.sender@),
{
}

/// Enrichment is a function of what it is given: two enrichments of one block
/// with the same receipts, traces and rewards agree in every part.
pub proof fn enrichment_is_determined<R, X>(
    block: Block<Transaction>,
    receipts: Seq<Receipt<R>>,
    traces: Seq<TraceResult<X>>,
    rewards: Seq<RewardTraceEntry>,
    first: EnrichedBlock<R, X>,
    second: EnrichedBlock<R, X>,
)
    requires
        is_enrichment(block, receipts, traces, rewards, first),
        is_enrichment(block, receipts, traces, rewards, second),
    ensures
        first.inner.header == second.inner.header,
        first.inner.uncles == second.inner.uncles,
        first.inner.withdrawals == second.inner.withdrawals,
        first.rewards@ == second.rewards@,
        first.inner.transactions@.len() == second.inner.transactions@.len(),
        forall|i: int| 0 <= i < first.inner.transactions@.len() ==> {
            &&& (#[trigger] first.inner.transactions@[i]).inner == second.inner.transactions@[i].inner
            &&& first.inner.transactions@[i].public_key@ == second.inner.transactions@[i].public_key@
            &&& first.inner.transactions@[i].receipts == second.inner.transactions@[i].receipts
            &&& first.inner.transactions@[i].trace == second.inner.transactions@[i].trace
        },
{
}

/// A block without transactions, with no receipts and no traces, is enriched
/// without failure: its enrichment has no transactions and the rewards that
/// were given.
pub proof fn empty_block_is_enriched<R, X>(
    block: Block<Transaction>,
    receipts: Seq<Receipt<R>>,
    traces: Seq<TraceResult<X>>,
    rewards: Seq<RewardTraceEntry>,
    out: EnrichedBlock<R, X>,
)
    requires
        block.transactions@.len() == 0,
        receipts.len() == 0,
        traces.len() == 0,
    ensures
        enrich_failure(block.transactions@, receipts, traces).is_none(),
        is_enrichment(block, receipts, traces, rewards, out) ==> out.inner.transactions@.len() == 0 && out.rewards@ == rewards,
{
}

} // verus!
