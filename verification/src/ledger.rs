use vstd::prelude::*;

use crate::transaction::Error;
use crate::transaction::Transaction;

verus! {

/// One record of the append-only event stream. A record is immutable once
/// appended; exactly one is appended per successful apply.
#[derive(Clone, Copy, Debug, PartialEq, Eq)]
pub enum Event {
    /// The stored cell was overwritten with this observation.
    ValueStored(u64),
}

/// The durable state this module answers for: the single authoritative
/// cell, which always reflects the most recently applied payload, and the
/// event stream appended alongside it.
pub struct Ledger {
    stored_value: u64,
    event_log: Vec<Event>,
}

/// The state transition the handler performs on `(stored, events)` for a
/// payload carrying `observation`, together with its result. Without
/// unsigned provenance nothing moves and the call fails; with it, the cell
/// is overwritten — never merged — and one event is appended.
pub open spec fn spec_apply(
    stored: u64,
    events: Seq<Event>,
    observation: u64,
    caller_is_unsigned: bool,
) -> (u64, Seq<Event>, Result<(), Error>) {
    if caller_is_unsigned {
        (observation, events.push(Event::ValueStored(observation)), Ok(()))
    } else {
        (stored, events, Err(Error::Unauthorized))
    }
}

impl Ledger {
    /// The value of the stored cell.
    pub closed spec fn stored(&self) -> u64 {
        self.stored_value
    }

    /// The events appended so far, oldest first.
    pub closed spec fn events(&self) -> Seq<Event> {
        self.event_log@
    }

    /// A fresh store: the cell reads 0 until first written, and no event
    /// has been appended.
    pub fn new() -> (l: Ledger)
        ensures
            l.stored() == 0,
            l.events() == Seq::<Event>::empty(),
    {
        Ledger { stored_value: 0, event_log: Vec::new() }
    }

    /// Reads the stored cell.
    pub fn get(&self) -> (r: u64)
        ensures
            r == self.stored(),
    {
        self.stored_value
    }

    /// Reads the event stream, oldest first.
    pub fn event_log(&self) -> (r: &Vec<Event>)
        ensures
            r@ == self.events(),
    {
        &self.event_log
    }

    /// State transition handler, invoked by the execution path for a
    /// transaction already admitted and included — hence the payload-
    /// carrying shape may be required of the argument. Provenance is
    /// re-checked all the same: without `caller_is_unsigned` the call fails
    /// with [`Error::Unauthorized`] and leaves the state untouched. With
    /// it, the cell is overwritten with the payload's observation and one
    /// [`Event::ValueStored`] record is appended.
    pub fn apply(&mut self, tx: Transaction, caller_is_unsigned: bool) -> (r: Result<
        (),
        Error,
    >)
        requires
            tx is SubmitObservation,
        ensures
            ({
                let (stored, events, res) = spec_apply(
                    old(self).stored(),
                    old(self).events(),
                    tx->observation,
                    caller_is_unsigned,
                );
                &&& final(self).stored() == stored
                &&& final(self).events() == events
                &&& r == res
            }),
    {
        if !caller_is_unsigned {
            return Err(Error::Unauthorized);
        }
        match tx {
            Transaction::SubmitObservation { observation, height: _ } => {
                self.stored_value = observation;
                self.event_log.push(Event::ValueStored(observation));
                Ok(())
            },
            Transaction::Other => unreached(),
        }
    }
}

/// Law: without unsigned provenance the transition fails with
/// `Unauthorized` and moves nothing, whatever the payload and whatever the
/// state.
pub proof fn lemma_signed_origin_rejected(stored: u64, events: Seq<Event>, observation: u64)
    ensures
        spec_apply(stored, events, observation, false) == (
            stored,
            events,
            Err::<(), Error>(Error::Unauthorized),
        ),
{
}

/// Law: overwrite, never merge. Applying a payload `(v1, h1)` and then a
/// payload `(v2, h2)` with distinct observations through the unsigned path,
/// from any state, succeeds twice, leaves exactly `v2` stored, and appends
/// exactly two events — `ValueStored(v1)` then `ValueStored(v2)`, in that
/// order.
pub proof fn lemma_overwrite_not_merge(
    stored: u64,
    events: Seq<Event>,
    p1: (u64, u64),
    p2: (u64, u64),
)
    requires
        p1.0 != p2.0,
    ensures
        ({
            let (s1, e1, r1) = spec_apply(stored, events, p1.0, true);
            let (s2, e2, r2) = spec_apply(s1, e1, p2.0, true);
            &&& r1 == Ok::<(), Error>(())
            &&& r2 == Ok::<(), Error>(())
            &&& s2 == p2.0
            &&& e2 =~= events + seq![Event::ValueStored(p1.0), Event::ValueStored(p2.0)]
        }),
{
}

} // verus!
