use vstd::prelude::*;

verus! {

/// The closed set of externally invocable operations. The only operation
/// this module answers for is the unsigned observation submission; every
/// other call routed here stands behind `Other` and is refused at admission.
#[derive(Clone, Copy, Debug, PartialEq, Eq)]
pub enum Transaction {
    /// The unsigned-only operation: store `observation`, made at `height`.
    /// The payload pair is also the transaction's deduplication identity.
    SubmitObservation { observation: u64, height: u64 },
    /// Any externally invocable operation other than the observation
    /// submission.
    Other,
}

/// The failures of this module. None of them is fatal to the node: an
/// admission-time rejection is returned to the submitter, a submission
/// failure is logged and retried by the next height's trigger, and an
/// apply-time rejection discards the one transaction and leaves state
/// untouched.
#[derive(Clone, Copy, Debug, PartialEq, Eq)]
pub enum Error {
    /// Admission refused a call that is not the observation submission.
    UnsupportedCall,
    /// The off-chain submission toward the pool failed (pool full,
    /// duplicate, transient). Raised at the pool boundary, outside this
    /// crate's verified logic.
    SubmissionFailed,
    /// The state transition handler was reached without unsigned
    /// provenance. There is deliberately no signed entry point for the
    /// stored cell.
    Unauthorized,
}

/// Builds the unsigned transaction that carries one `(observation, height)`
/// payload.
pub fn submit_observation(observation: u64, height: u64) -> (tx: Transaction)
    ensures
        tx == (Transaction::SubmitObservation { observation, height }),
{
    Transaction::SubmitObservation { observation, height }
}

} // verus!
