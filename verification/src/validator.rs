use vstd::prelude::*;

use crate::transaction::Error;
use crate::transaction::Transaction;

verus! {

/// How many heights an admitted transaction stays eligible for inclusion
/// after submission; past that, the pool drops it and the next height's
/// trigger submits afresh.
pub const LONGEVITY: u64 = 3;

/// The admission verdict on one transaction.
#[derive(Clone, Copy, Debug, PartialEq, Eq)]
pub enum Outcome {
    /// The transaction may enter the pool: with which priority, under which
    /// deduplication tag, for how many heights, and whether peers may relay
    /// it.
    Accepted { priority: u64, dedup_tag: (u64, u64), longevity: u64, propagate: bool },
    /// The transaction may not enter the pool.
    Rejected { reason: Error },
}

/// The admission verdict as a total function of transaction content alone.
///
/// Determinism is the correctness requirement here: every node runs this on
/// the same content, with no shared state, and must reach the same verdict.
/// The deduplication tag is therefore the payload itself, never anything
/// read from mutable state.
pub open spec fn spec_validate(tx: Transaction) -> Outcome {
    match tx {
        Transaction::SubmitObservation { observation, height } => Outcome::Accepted {
            priority: 0,
            dedup_tag: (observation, height),
            longevity: LONGEVITY,
            propagate: true,
        },
        Transaction::Other => Outcome::Rejected { reason: Error::UnsupportedCall },
    }
}

/// Admission validator: pure, side-effect free, and total over the whole
/// transaction domain. The observation submission is admitted with priority
/// 0, its payload as deduplication tag, longevity [`LONGEVITY`] and
/// propagation enabled; everything else is rejected as an unsupported call.
pub fn validate(tx: Transaction) -> (out: Outcome)
    ensures
        out == spec_validate(tx),
{
    match tx {
        Transaction::SubmitObservation { observation, height } => Outcome::Accepted {
            priority: 0,
            dedup_tag: (observation, height),
            longevity: LONGEVITY,
            propagate: true,
        },
        Transaction::Other => Outcome::Rejected { reason: Error::UnsupportedCall },
    }
}

/// Law: every payload-carrying transaction is admitted, with priority 0,
/// the payload itself as deduplication tag, longevity 3, and propagation
/// enabled.
pub proof fn lemma_payload_admitted(observation: u64, height: u64)
    ensures
        spec_validate(Transaction::SubmitObservation { observation, height })
            == (Outcome::Accepted {
                priority: 0,
                dedup_tag: (observation, height),
                longevity: 3,
                propagate: true,
            }),
{
}

/// Law: every transaction other than the payload-carrying one is rejected
/// as an unsupported call.
pub proof fn lemma_non_target_rejected(tx: Transaction)
    requires
        tx !is SubmitObservation,
    ensures
        spec_validate(tx) == (Outcome::Rejected { reason: Error::UnsupportedCall }),
{
}

/// Law: one observation made at two distinct heights yields two admissible
/// transactions with distinct deduplication tags, so pool-level
/// deduplication never conflates submissions from different heights.
pub proof fn lemma_distinct_heights_distinct_tags(observation: u64, h1: u64, h2: u64)
    requires
        h1 != h2,
    ensures
        ({
            let o1 = spec_validate(Transaction::SubmitObservation { observation, height: h1 });
            let o2 = spec_validate(Transaction::SubmitObservation { observation, height: h2 });
            &&& o1 matches Outcome::Accepted { dedup_tag: t1, .. }
            &&& o2 matches Outcome::Accepted { dedup_tag: t2, .. }
            &&& t1 != t2
        }),
{
}

} // verus!
