use vstd::prelude::*;

verus! {

/// The callbacks that the tree hands out while it is stepped.  Instead of
/// storing closures inside the nodes, the library keeps all user behaviour —
/// elapsed callbacks, trigger predicates and the step functions of
/// poll-driven coroutines — in one host object that the caller passes into
/// `step`; the tree reports each event to it with the identity of the
/// generator concerned.  Nothing is assumed of a host: every contract of the
/// library holds whatever a host does or returns.
pub trait StepHost<T> {
    /// A one-shot timer observed its deadline (fires at most once per timer).
    fn timer_elapsed(&mut self, id: u128);

    /// A periodic timer observed an interval boundary.
    fn periodic_elapsed(&mut self, id: u128);

    /// Evaluate a trigger's predicate; called once per step of that trigger.
    fn trigger_condition(&mut self, id: u128) -> bool;

    /// A trigger's predicate was observed true for the first time.
    fn trigger_fired(&mut self, id: u128);

    /// Run a poll-driven coroutine's step function once; `None` means it has
    /// nothing left to produce and completes the coroutine.
    fn coroutine_step(&mut self, id: u128) -> Option<T>;
}

} // verus!
