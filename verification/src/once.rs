//! The once-combinator: run an action's inner logic exactly one time.
//!
//! Wrapping an action yields a condition unit that, the first time it is
//! polled, runs the action and reports ready with its output, marking itself
//! consumed.  A correct scheduler never polls a unit again after it reported
//! ready, but a repeat poll must still be safe: it is a no-op that reports
//! not-yet and leaves the store untouched.  Side effects therefore occur at
//! most once per unit, however many ticks pass before the owning task
//! reaches this point of its workflow and however often it is polled.

pub mod state;

use vstd::prelude::*;

use crate::condition::ConditionAction;
use crate::store::{StateStore, StoreModel};

verus! {

/// The mathematical model of a once-wrapped unit: the wrapped action and
/// whether its logic has already run.
pub struct OnceModel<A> {
    pub action: A,
    pub fired: bool,
}

/// One poll of a once-wrapped unit, on the models: an unfired unit runs its
/// action — the store takes the action's effect, the action's output comes
/// back ready, and the unit is consumed; a fired unit changes nothing and
/// reports not-yet.
pub open spec fn once_step<A: ConditionAction>(
    u: OnceModel<A>,
    input: A::Input,
    s: StoreModel<A::State>,
) -> (OnceModel<A>, StoreModel<A::State>, Option<A::Output>) {
    if u.fired {
        (u, s, None)
    } else {
        (
            (OnceModel { action: u.action, fired: true }),
            u.action.effect_on(input, s),
            Some(u.action.output_in(input, s)),
        )
    }
}

/// The unit and store after `n` consecutive polls of a once-wrapped unit,
/// with the same bound input and no interference between polls.
pub open spec fn once_steps<A: ConditionAction>(
    u: OnceModel<A>,
    input: A::Input,
    s: StoreModel<A::State>,
    n: nat,
) -> (OnceModel<A>, StoreModel<A::State>)
    decreases n,
{
    if n == 0 {
        (u, s)
    } else {
        let (prev_u, prev_s) = once_steps(u, input, s, (n - 1) as nat);
        let (next_u, next_s, _) = once_step(prev_u, input, prev_s);
        (next_u, next_s)
    }
}

/// A once-wrapped condition unit.  Polling it the first time runs the
/// wrapped action and yields its output; every later poll is a safe no-op.
pub struct Once<A> {
    action: A,
    fired: bool,
}

impl<A> View for Once<A> {
    type V = OnceModel<A>;

    closed spec fn view(&self) -> OnceModel<A> {
        OnceModel { action: self.action, fired: self.fired }
    }
}

impl<A: ConditionAction> Once<A> {
    /// Wrap `action` so its logic runs exactly one time.  Each call yields a
    /// fresh, independently owned unit: two wrappings of equal actions fire
    /// independently.
    pub fn new(action: A) -> (unit: Self)
        ensures
            unit@ == (OnceModel { action, fired: false }),
    {
        Once { action, fired: false }
    }

    /// Poll the unit once, with read/write access to the store for the
    /// duration of this one call.  Behaves exactly as `once_step` says on
    /// the models: the first poll runs the action and reports ready with
    /// its output; a repeat poll reports not-yet and does nothing.
    pub fn poll(&mut self, input: &A::Input, store: &mut StateStore<A::State>) -> (out: Option<
        A::Output,
    >)
        ensures
            ({
                let (next_unit, next_store, step_out) = once_step(
                    old(self)@,
                    *input,
                    old(store)@,
                );
                &&& final(self)@ == next_unit
                &&& final(store)@ == next_store
                &&& out == step_out
            }),
    {
        if self.fired {
            None
        } else {
            self.fired = true;
            Some(self.action.run(input, store))
        }
    }
}

/// A consumed once-unit is inert: a poll after the unit has fired leaves
/// both the unit and the store exactly as they were and reports not-yet.
pub proof fn lemma_fired_unit_is_inert<A: ConditionAction>(
    u: OnceModel<A>,
    input: A::Input,
    s: StoreModel<A::State>,
)
    requires
        u.fired,
    ensures
        once_step(u, input, s) == (u, s, None::<A::Output>),
{
}

/// A once-wrapped action's inner logic runs exactly one time: across any
/// positive number of polls of an initially unfired unit, the store shows
/// the action's effect applied exactly once, and the unit ends consumed.
pub proof fn lemma_once_effect_applied_exactly_once<A: ConditionAction>(
    u: OnceModel<A>,
    input: A::Input,
    s: StoreModel<A::State>,
    n: nat,
)
    requires
        !u.fired,
        n >= 1,
    ensures
        once_steps(u, input, s, n).1 == u.action.effect_on(input, s),
        once_steps(u, input, s, n).0 == (OnceModel { action: u.action, fired: true }),
    decreases n,
{
    if n == 1 {
        assert(once_steps(u, input, s, 0nat) == (u, s));
    } else {
        lemma_once_effect_applied_exactly_once(u, input, s, (n - 1) as nat);
    }
}

} // verus!
