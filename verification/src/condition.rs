//! The condition-unit protocol and the reactor configuration adapter.
//!
//! A condition unit is whatever a combinator wraps: an *action* that reads
//! and writes the shared state store once, or a *probe* that only reads it.
//! Every concrete unit is a distinct type implementing one of the two
//! interfaces below, composed by the combinators through generics — all
//! wrapping is known at construction time, so no runtime polymorphism is
//! needed.  `ReactorConfig` is the structural adapter that pairs a unit with
//! the input value the scheduler will feed it.

use vstd::prelude::*;

use crate::store::{StateStore, StoreModel};

verus! {

/// An action against the shared state store: logic that, when run once, maps
/// the store's model to a new model and produces an output.  Implementors
/// say exactly what that map is (`effect_on`) and what comes out
/// (`output_in`); `run` is then held to both.
pub trait ConditionAction: Sized {
    /// The state-enum type whose store the action touches.
    type State;

    /// The input the owning configuration binds to the action.
    type Input;

    /// What the action yields when it runs.
    type Output;

    /// The store model after the action runs on `input` in store `s`.
    spec fn effect_on(&self, input: Self::Input, s: StoreModel<Self::State>) -> StoreModel<
        Self::State,
    >;

    /// The output the action yields when run on `input` in store `s`.
    spec fn output_in(&self, input: Self::Input, s: StoreModel<Self::State>) -> Self::Output;

    /// Run the action's logic once with read/write access to the store.
    fn run(&self, input: &Self::Input, store: &mut StateStore<Self::State>) -> (out: Self::Output)
        ensures
            final(store)@ == self.effect_on(*input, old(store)@),
            out == self.output_in(*input, old(store)@),
    ;
}

/// A probe of the shared state store: a predicate over the store's model,
/// evaluated with read-only access and no side effect.  `reliable` states
/// what the probe needs of its state type (typically that the type's
/// equality test agrees with mathematical equality) for `eval` to answer
/// exactly as `holds_in` says.
pub trait ConditionProbe: Sized {
    /// The state-enum type whose store the probe reads.
    type State;

    /// What the probe assumes of its state type.
    spec fn reliable(&self) -> bool;

    /// The predicate the probe decides, over the store's model.
    spec fn holds_in(&self, s: StoreModel<Self::State>) -> bool;

    /// Evaluate the predicate against the current tick's store.
    fn eval(&self, store: &StateStore<Self::State>) -> (sat: bool)
        requires
            self.reliable(),
        ensures
            sat == self.holds_in(store@),
    ;
}

/// A reactor task configuration: an input value paired with the condition
/// unit it is bound to.  A pure structural adapter — constructing one and
/// taking it apart yields back exactly what went in.
pub struct ReactorConfig<I, U> {
    pub input: I,
    pub unit: U,
}

/// The configuration `with` builds from an input and a unit.
pub open spec fn with_spec<I, U>(input: I, unit: U) -> ReactorConfig<I, U> {
    ReactorConfig { input, unit }
}

/// The input/unit pair a configuration decomposes into.
pub open spec fn parts_spec<I, U>(config: ReactorConfig<I, U>) -> (I, U) {
    (config.input, config.unit)
}

/// Bind `input` to `unit` as one reactor task configuration.  The input may
/// be the unit value `()` when the wrapped unit takes no meaningful input,
/// or a caller-supplied value the scheduler later feeds to the unit.
pub fn with<I, U>(input: I, unit: U) -> (config: ReactorConfig<I, U>)
    ensures
        config == with_spec(input, unit),
{
    ReactorConfig { input, unit }
}

impl<I, U> ReactorConfig<I, U> {
    /// Take the configuration apart into its bound input and its unit.
    pub fn into_parts(self) -> (parts: (I, U))
        ensures
            parts == parts_spec(self),
    {
        (self.input, self.unit)
    }
}

/// Structural transparency of the adapter, one way: binding an input to a
/// unit and taking the configuration apart yields back the same input and
/// the unit unmodified.
pub proof fn lemma_config_round_trip<I, U>(input: I, unit: U)
    ensures
        parts_spec(with_spec(input, unit)) == (input, unit),
{
}

/// Structural transparency, the other way: a configuration is nothing but
/// its parts — rebinding them reproduces it exactly.
pub proof fn lemma_config_rebuilds<I, U>(config: ReactorConfig<I, U>)
    ensures
        with_spec(parts_spec(config).0, parts_spec(config).1) == config,
{
}

} // verus!
