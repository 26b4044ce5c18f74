//! The request as a whole: what the fetches brought decides what is
//! answered.

use vstd::prelude::*;
use crate::assemble::{assemble_block, is_enrichment};
use crate::model::{
    Block, BlockNumberOrTag, EnrichError, EnrichedBlock, Failure, Receipt, Source, TaskOutcome,
    TraceResult, Transaction,
};
use crate::reward::RewardTraceEntry;
use crate::validate::{enrich_failure, validate_block};

verus! {

/// Serves enriched blocks on top of a backend.
#[derive(Debug)]
pub struct EthBlockReceiptsTraceExt<Eth> {
    eth_api: Eth,
}

/// Why the fetches of traces and receipts leave nothing to enrich, if they
/// do: a unit that did not run to completion comes first; then what the
/// backend said of the traces, then what it said of the receipts.
pub open spec fn fetch_failure<T, U>(traces: TaskOutcome<T>, receipts: TaskOutcome<U>) -> Option<Failure> {
    if traces is Aborted || receipts is Aborted {
        Some(Failure::ConcurrencyFailure)
    } else {
        match traces {
            TaskOutcome::Failed(detail) => Some(Failure::BackendFailure { source: Source::Traces, detail: detail@ }),
            TaskOutcome::Missing => Some(Failure::MissingResult(Source::Traces)),
            _ => match receipts {
                TaskOutcome::Failed(detail) => Some(
                    Failure::BackendFailure { source: Source::Receipts, detail: detail@ },
                ),
                TaskOutcome::Missing => Some(Failure::MissingResult(Source::Receipts)),
                _ => None,
            },
        }
    }
}

/// Why a request fails, if it does: the fetches of traces and receipts decide
/// first; then the fetch of the block, where an absent block is no failure;
/// then the checks of the block; last the unit that computes the rewards,
/// which has to have run to completion.
pub open spec fn request_failure<R, X>(
    traces: TaskOutcome<Vec<TraceResult<X>>>,
    receipts: TaskOutcome<Vec<Receipt<R>>>,
    block: TaskOutcome<Block<Transaction>>,
    rewards: Option<Vec<RewardTraceEntry>>,
) -> Option<Failure> {
    match fetch_failure(traces, receipts) {
        Some(failure) => Some(failure),
        None => match block {
            TaskOutcome::Aborted => Some(Failure::ConcurrencyFailure),
            TaskOutcome::Failed(detail) => Some(Failure::BackendFailure { source: Source::Block, detail: detail@ }),
            TaskOutcome::Missing => None,
            TaskOutcome::Ready(block) => match enrich_failure(block.transactions@, receipts->Ready_0@, traces->Ready_0@) {
                Some(failure) => Some(failure),
                None => if rewards.is_none() {
                    Some(Failure::ConcurrencyFailure)
                } else {
                    None
                },
            },
        },
    }
}

/// The height at which the rewards of a request are computed: the one that
/// the identifier names, else that of the block which the backend returned for
/// the identifier, if it returned one.
pub fn reward_height(number: BlockNumberOrTag, fetched: &TaskOutcome<Block<Transaction>>) -> (res: Option<u64>)
    ensures
        res == match number.height() {
            Some(height) => Some(height),
            None => match *fetched {
                TaskOutcome::Ready(block) => Some(block.header.number),
                _ => None,
            },
        },
{
    match number.as_number() {
        Some(height) => Some(height),
        None => match fetched {
            TaskOutcome::Ready(block) => Some(block.header.number),
            _ => None,
        },
    }
}

/// Joins the outcomes of the two fetches: both results, or the failure.
pub fn join_fetches<T, U>(traces: TaskOutcome<T>, receipts: TaskOutcome<U>) -> (res: Result<(T, U), EnrichError>)
    ensures
        match fetch_failure(traces, receipts) {
            Some(failure) => res matches Err(e) && e@ == failure,
            None => res matches Ok(pair) && traces == TaskOutcome::Ready(pair.0) && receipts == TaskOutcome::<U>::Ready(pair.1),
        },
{
    if let TaskOutcome::Aborted = &traces {
        return Err(EnrichError::ConcurrencyFailure);
    }
    if let TaskOutcome::Aborted = &receipts {
        return Err(EnrichError::ConcurrencyFailure);
    }
    let traces = match traces {
        TaskOutcome::Ready(traces) => traces,
        TaskOutcome::Failed(detail) => {
            return Err(EnrichError::BackendFailure { source: Source::Traces, detail });
        },
        _ => {
            return Err(EnrichError::MissingResult(Source::Traces));
        },
    };
    let receipts = match receipts {
        TaskOutcome::Ready(receipts) => receipts,
        TaskOutcome::Failed(detail) => {
            return Err(EnrichError::BackendFailure { source: Source::Receipts, detail });
        },
        _ => {
            return Err(EnrichError::MissingResult(Source::Receipts));
        },
    };
    Ok((traces, receipts))
}

impl<Eth> EthBlockReceiptsTraceExt<Eth> {
    /// The backend that this service stands on.
    pub closed spec fn backend(self) -> Eth {
        self.eth_api
    }

    /// Creates a new instance.
    pub fn new(eth_api: Eth) -> (res: Self)
        ensures
            res.backend() == eth_api,
    {
        Self { eth_api }
    }

    /// The backend to fetch from.
    pub fn eth_api(&self) -> (res: &Eth)
        ensures
            *res == self.backend(),
    {
        &self.eth_api
    }

    /// Answers a request from what the three units of work and the fetch of
    /// the block brought: nothing for a block that the backend does not have,
    /// the enriched block where every check passes, else the first failure.
    /// `rewards` is none where the unit that computes the rewards did not run
    /// to completion.
    pub fn block_receipts_trace<R, X>(
        &self,
        traces: TaskOutcome<Vec<TraceResult<X>>>,
        receipts: TaskOutcome<Vec<Receipt<R>>>,
        block: TaskOutcome<Block<Transaction>>,
        rewards: Option<Vec<RewardTraceEntry>>,
    ) -> (res: Result<Option<EnrichedBlock<R, X>>, EnrichError>)
        ensures
            match request_failure(traces, receipts, block, rewards) {
                Some(failure) => res matches Err(e) && e@ == failure,
                None => match block {
                    TaskOutcome::Ready(block) => res matches Ok(Some(out)) && is_enrichment(
                        block,
                        receipts->Ready_0@,
                        traces->Ready_0@,
                        rewards.unwrap()@,
                        out,
                    ),
                    _ => res matches Ok(None),
                },
            },
    {
        let (traces, receipts) = match join_fetches(traces, receipts) {
            Ok(pair) => pair,
            Err(e) => {
                return Err(e);
            },
        };
        let block = match block {
            TaskOutcome::Ready(block) => block,
            TaskOutcome::Missing => {
                return Ok(None);
            },
            TaskOutcome::Failed(detail) => {
                return Err(EnrichError::BackendFailure { source: Source::Block, detail });
            },
            TaskOutcome::Aborted => {
                return Err(EnrichError::ConcurrencyFailure);
            },
        };
        let keys = match validate_block(&block.transactions, &receipts, &traces) {
            Ok(keys) => keys,
            Err(e) => {
                return Err(e);
            },
        };
        match rewards {
            Some(rewards) => Ok(Some(assemble_block(block, receipts, traces, keys, rewards))),
            None => Err(EnrichError::ConcurrencyFailure),
        }
    }
}

} // verus!
