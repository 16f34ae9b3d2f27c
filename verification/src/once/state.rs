//! One-shot state assignment: the `set` condition instance.

use core::marker::PhantomData;

use vstd::prelude::*;

use crate::condition::{with, ConditionAction, ReactorConfig};
use crate::once::{once_steps, Once, OnceModel};
use crate::store::{committed, committed_n, with_pending, StateStore, StoreModel};

verus! {

/// The action behind `set`: assign the bound input as the pending value of
/// its state type's store.  The committed value is untouched — the
/// assignment becomes visible only at the host's next commit point.
pub struct SetNext<S> {
    pub marker: PhantomData<S>,
}

/// The one `SetNext` action value for a state type (the action itself is
/// stateless; the value to assign arrives as the bound input).
pub open spec fn set_next<S>() -> SetNext<S> {
    SetNext { marker: PhantomData }
}

impl<S: Copy> ConditionAction for SetNext<S> {
    type State = S;

    type Input = S;

    type Output = ();

    open spec fn effect_on(&self, input: S, s: StoreModel<S>) -> StoreModel<S> {
        with_pending(s, input)
    }

    open spec fn output_in(&self, input: S, s: StoreModel<S>) -> () {
        ()
    }

    fn run(&self, input: &S, store: &mut StateStore<S>) -> (out: ()) {
        store.set_pending(*input);
    }
}

/// Once set a next state: a configuration whose unit, the first tick it is
/// polled, schedules `state` as the pending value of `S`'s store and reports
/// ready.  Exactly one assignment happens, however many ticks pass before
/// the owning task reaches this point and however often the unit is polled;
/// the assignment becomes visible at the host's next commit point after the
/// tick in which the unit runs.
pub fn set<S: Copy>(state: S) -> (config: ReactorConfig<S, Once<SetNext<S>>>)
    ensures
        config.input == state,
        config.unit@ == (OnceModel { action: set_next::<S>(), fired: false }),
{
    with(state, Once::new(SetNext { marker: PhantomData }))
}

/// A `set` unit writes the store's pending slot exactly once: whether the
/// owning task is polled once or any number of times before the commit
/// point, the store ends with a single pending-value write of the bound
/// input and an unchanged committed value.
pub proof fn lemma_set_writes_pending_exactly_once<S: Copy>(
    u: OnceModel<SetNext<S>>,
    state: S,
    s: StoreModel<S>,
    n: nat,
)
    requires
        !u.fired,
        n >= 1,
    ensures
        once_steps(u, state, s, n).1 == with_pending(s, state),
        once_steps(u, state, s, n).1.current == s.current,
{
    crate::once::lemma_once_effect_applied_exactly_once(u, state, s, n);
}

/// After a `set` unit fires — in any positive number of polls — the next
/// host commit makes the committed value `state`, and it never changes
/// again over any number of further commits, until another write fills the
/// pending slot.
pub proof fn lemma_set_read_back_after_commit<S: Copy>(
    u: OnceModel<SetNext<S>>,
    state: S,
    s: StoreModel<S>,
    polls: nat,
    later_commits: nat,
)
    requires
        !u.fired,
        polls >= 1,
    ensures
        committed_n(committed(once_steps(u, state, s, polls).1), later_commits).current == state,
        committed_n(committed(once_steps(u, state, s, polls).1), later_commits).pending is None,
{
    lemma_set_writes_pending_exactly_once(u, state, s, polls);
    crate::store::lemma_committed_value_stable(s, state, later_commits);
}

} // verus!
