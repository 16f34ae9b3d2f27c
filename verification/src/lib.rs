//! A condition-combinator layer for tick-based cooperative schedulers.
//!
//! A reactor task is an asynchronous workflow that, once per tick, may submit
//! a *condition unit* to its host: a probe or action that runs with scoped
//! access to shared state and either yields an output ("ready") or reports
//! "not yet", parking the task until a later tick.  This crate provides the
//! two combinator archetypes that build such units — `once`, which runs an
//! action's logic exactly one time, and `wait`, which re-polls a predicate
//! every tick until it holds — together with the configuration adapter that
//! binds an input value to a unit, and the two state-scoped instances
//! (`once::state::set`, `wait::state::becomes`) built from them.
//!
//! The host runtime that owns the real state storage and runs the tick loop
//! is out of scope here; `store::StateStore` models the one capability the
//! combinators need from it: a per-type current value plus a pending value
//! that the host commits between ticks.

pub mod condition;
pub mod once;
pub mod store;
pub mod wait;
