//! Waiting on a state value: the `becomes` condition instance.

use vstd::laws_eq::obeys_concrete_eq;
use vstd::prelude::*;

use crate::condition::{with, ConditionProbe, ReactorConfig};
use crate::store::{StateStore, StoreModel};
use crate::wait::{wait_step, Wait};

verus! {

/// The probe behind `becomes`: does the *committed* value of the state
/// store equal the target?  Only the committed value is read — a value
/// written earlier in the same tick is still pending and does not count.
pub struct BecomesProbe<S> {
    pub target: S,
}

impl<S: PartialEq + Copy> ConditionProbe for BecomesProbe<S> {
    type State = S;

    /// The probe decides by `==`, so it needs the state type's equality
    /// test to agree with mathematical equality — as the derived equality
    /// of a state enum does.
    open spec fn reliable(&self) -> bool {
        obeys_concrete_eq::<S>()
    }

    open spec fn holds_in(&self, s: StoreModel<S>) -> bool {
        s.current == self.target
    }

    fn eval(&self, store: &StateStore<S>) -> (sat: bool) {
        proof {
            reveal(vstd::laws_eq::obeys_concrete_eq);
        }
        *store.read_current() == self.target
    }
}

/// Waits until the state becomes the specified value: a configuration whose
/// unit, polled once per tick, reports ready on the first tick in which the
/// committed value of `S`'s store equals `state` — including the very first
/// poll if it is already equal — and not-yet on every poll before that.  It
/// yields no output value: only the event of equality matters.
pub fn becomes<S: PartialEq + Copy>(state: S) -> (config: ReactorConfig<(), Wait<BecomesProbe<S>>>)
    ensures
        config.input == (),
        config.unit@ == (BecomesProbe { target: state }),
{
    with((), Wait::new(BecomesProbe { target: state }))
}

/// A `becomes` unit reports not-yet on every poll while the committed value
/// differs from the target, and ready on exactly the polls where it equals
/// the target, whether that is the first poll or a later one.
pub proof fn lemma_becomes_ready_iff_equal<S: PartialEq + Copy>(target: S, s: StoreModel<S>)
    ensures
        wait_step((BecomesProbe { target }), s) is Some <==> s.current == target,
        wait_step((BecomesProbe { target }), s) is None <==> s.current != target,
{
}

} // verus!
