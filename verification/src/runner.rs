use vstd::prelude::*;

use crate::transaction::submit_observation;
use crate::transaction::Transaction;

verus! {

/// The placeholder observation. A deployment would fetch a live value; the
/// fetch strategy is deliberately left to the pluggable
/// [`ObservationSource`], and this constant stands in for it.
pub const FIXED_OBSERVATION: u64 = 50000;

/// Where observations come from. Each source states, as [`Self::observed`],
/// which value it reports at a given height, and `observe` is held to it.
/// Across sources nothing is promised: an observation carries no freshness
/// or provenance guarantee, and different nodes may well observe different
/// values for one height — agreement emerges later, from whichever
/// submitted transaction gets included.
pub trait ObservationSource {
    /// The observation this source reports for `height`, as a function of
    /// the source's state before the call.
    spec fn observed(&self, height: u64) -> u64;

    /// Produce the observation for `height`.
    fn observe(&mut self, height: u64) -> (r: u64)
        ensures
            r == old(self).observed(height),
    ;
}

/// The placeholder source: reports [`FIXED_OBSERVATION`] at every height.
pub struct FixedSource;

impl ObservationSource for FixedSource {
    open spec fn observed(&self, _height: u64) -> u64 {
        FIXED_OBSERVATION
    }

    fn observe(&mut self, _height: u64) -> u64 {
        FIXED_OBSERVATION
    }
}

/// One trigger of the off-chain task at a newly observed `height`: produce
/// the observation the source reports for that height and build exactly the
/// unsigned transaction carrying it, to hand toward the pool. Submitting it
/// — and logging a failed submission — belongs to the caller at the pool
/// boundary; a failure is not retried within this trigger, since the next
/// height fires the task again with a fresh payload.
pub fn offchain_worker<S: ObservationSource>(source: &mut S, height: u64) -> (tx: Transaction)
    ensures
        tx == (Transaction::SubmitObservation {
            observation: old(source).observed(height),
            height,
        }),
{
    let observation = source.observe(height);
    submit_observation(observation, height)
}

} // verus!
