//! The wait-combinator: re-poll a predicate every tick until it holds.
//!
//! Wrapping a probe yields a condition unit that, each time it is polled,
//! evaluates the probe against the current tick's store and reports ready
//! exactly when the predicate holds — including on the very first poll, so a
//! predicate that is already true resolves on the same tick with no minimum
//! suspension.  The unit keeps no state of its own between polls: parking a
//! task on it for arbitrarily many ticks costs one re-evaluation per tick
//! and nothing more.

pub mod state;

use vstd::prelude::*;

use crate::condition::ConditionProbe;
use crate::store::{StateStore, StoreModel};

verus! {

/// One poll of a wait-wrapped probe, on the models: ready with unit output
/// exactly when the predicate holds of the store, not-yet otherwise.  The
/// unit itself never changes, so the same function describes every poll.
pub open spec fn wait_step<P: ConditionProbe>(probe: P, s: StoreModel<P::State>) -> Option<()> {
    if probe.holds_in(s) {
        Some(())
    } else {
        None
    }
}

/// A wait-wrapped condition unit.  Its view is the wrapped probe itself:
/// the unit accumulates nothing between polls.
pub struct Wait<P> {
    probe: P,
}

impl<P> View for Wait<P> {
    type V = P;

    closed spec fn view(&self) -> P {
        self.probe
    }
}

impl<P: ConditionProbe> Wait<P> {
    /// Wrap `probe` so it is re-evaluated on every poll until it holds.
    pub fn new(probe: P) -> (unit: Self)
        ensures
            unit@ == probe,
    {
        Wait { probe }
    }

    /// Poll the unit once, with read-only access to the store for the
    /// duration of this one call.  Reports ready exactly when the predicate
    /// holds of the current tick's store, as `wait_step` says; the store and
    /// the unit are untouched, so the unit may be polled any number of
    /// times.
    pub fn poll(&self, store: &StateStore<P::State>) -> (out: Option<()>)
        requires
            self@.reliable(),
        ensures
            out == wait_step(self@, store@),
    {
        if self.probe.eval(store) {
            Some(())
        } else {
            None
        }
    }
}

/// A wait-wrapped unit reports not-yet on every poll in which its predicate
/// fails, and ready on every poll in which it holds — on the first poll as
/// much as on any later one, and on nothing else.
pub proof fn lemma_wait_ready_iff_holds<P: ConditionProbe>(probe: P, s: StoreModel<P::State>)
    ensures
        wait_step(probe, s) is Some <==> probe.holds_in(s),
        wait_step(probe, s) is None <==> !probe.holds_in(s),
{
}

} // verus!
