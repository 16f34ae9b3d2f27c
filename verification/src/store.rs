//! A model of the host runtime's per-type state store.
//!
//! The host keeps, for every state-enum type, a singleton holding a
//! *current* value and a *pending* value.  During a tick, reads always see
//! the current value as of the start of that tick; a write only replaces the
//! pending value, and the host swaps pending into current exactly once per
//! tick, at a commit point between phases.  Condition units must never
//! assume a value they wrote is visible to a read in the same phase.

use vstd::prelude::*;

verus! {

/// The mathematical model of one state store: its committed value and the
/// value scheduled to replace it at the next commit point, if any.
pub struct StoreModel<S> {
    pub current: S,
    pub pending: Option<S>,
}

/// The model after a pending-value write: the current value is untouched,
/// the written value waits for the next commit.
pub open spec fn with_pending<S>(m: StoreModel<S>, value: S) -> StoreModel<S> {
    StoreModel { current: m.current, pending: Some(value) }
}

/// The model after the host's commit point: a pending value, if present,
/// becomes current and the pending slot empties; otherwise nothing changes.
pub open spec fn committed<S>(m: StoreModel<S>) -> StoreModel<S> {
    match m.pending {
        Some(value) => StoreModel { current: value, pending: None },
        None => m,
    }
}

/// The model after `n` consecutive commit points with no intervening write.
pub open spec fn committed_n<S>(m: StoreModel<S>, n: nat) -> StoreModel<S>
    decreases n,
{
    if n == 0 {
        m
    } else {
        committed(committed_n(m, (n - 1) as nat))
    }
}

/// A per-type state singleton with the host's two-phase update discipline:
/// reads return the committed value, writes only fill the pending slot, and
/// only `commit` — the host's tick-boundary swap — moves pending to current.
pub struct StateStore<S> {
    current: S,
    pending: Option<S>,
}

impl<S> View for StateStore<S> {
    type V = StoreModel<S>;

    closed spec fn view(&self) -> StoreModel<S> {
        StoreModel { current: self.current, pending: self.pending }
    }
}

impl<S> StateStore<S> {
    /// A fresh store holding `initial` as its committed value.
    pub fn new(initial: S) -> (store: Self)
        ensures
            store@ == (StoreModel { current: initial, pending: None::<S> }),
    {
        StateStore { current: initial, pending: None }
    }

    /// The committed value: what every read during the present tick sees,
    /// whatever writes the tick has scheduled so far.
    pub fn read_current(&self) -> (value: &S)
        ensures
            *value == self@.current,
    {
        &self.current
    }

    /// The value scheduled to become current at the next commit, if any.
    pub fn read_pending(&self) -> (value: &Option<S>)
        ensures
            *value == self@.pending,
    {
        &self.pending
    }

    /// Schedule `value` to become current at the host's next commit point.
    /// The committed value is untouched: a read in the same tick still
    /// returns the old value.
    pub fn set_pending(&mut self, value: S)
        ensures
            final(self)@ == with_pending(old(self)@, value),
    {
        self.pending = Some(value);
    }

    /// The host's commit point: swap the pending value, if any, into
    /// current.  The host calls this exactly once per tick, between phases.
    pub fn commit(&mut self)
        ensures
            final(self)@ == committed(old(self)@),
    {
        if let Some(value) = self.pending.take() {
            self.current = value;
        }
    }
}

/// After a pending-value write of `value`, the very next commit makes
/// `value` the committed value and leaves nothing pending.
pub proof fn lemma_write_visible_at_next_commit<S>(m: StoreModel<S>, value: S)
    ensures
        committed(with_pending(m, value)).current == value,
        committed(with_pending(m, value)).pending is None,
{
}

/// Once a written value has been committed, any number of further commit
/// points leaves it in place: the committed value changes again only when
/// another write fills the pending slot.
pub proof fn lemma_committed_value_stable<S>(m: StoreModel<S>, value: S, n: nat)
    ensures
        committed_n(committed(with_pending(m, value)), n).current == value,
        committed_n(committed(with_pending(m, value)), n).pending is None,
    decreases n,
{
    if n > 0 {
        lemma_committed_value_stable(m, value, (n - 1) as nat);
    }
}

} // verus!
