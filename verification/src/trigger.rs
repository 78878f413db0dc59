use vstd::prelude::*;

use crate::generator::{completed_base, GeneratorBase};

verus! {

/// A predicate-gated one-shot.  The host evaluates the predicate once per
/// step and passes the observed value in; the first step that observes `true`
/// fires the triggered event, and every step that observes `true` completes
/// the trigger (idempotently).  A predicate that stays false leaves the
/// trigger pending forever.
pub struct Trigger {
    pub base: GeneratorBase,
    pub triggered: bool,
}

/// Whether a step that observes `condition` fires the triggered event: only
/// on the first true observation.
pub open spec fn trigger_fires(t: Trigger, condition: bool) -> bool {
    t.base.can_step() && condition && !t.triggered
}

/// The trigger state after one step that observes `condition`.
pub open spec fn trigger_stepped(t: Trigger, condition: bool) -> Trigger {
    if t.base.can_step() && condition {
        Trigger { base: completed_base(t.base), triggered: true }
    } else {
        t
    }
}

impl Trigger {
    pub open spec fn inv(self) -> bool {
        self.base.inv()
    }

    pub fn new() -> (r: Trigger)
        ensures
            !r.triggered,
            r.base.can_step(),
            r.base.name is None,
            r.inv(),
    {
        Trigger { base: GeneratorBase::new(), triggered: false }
    }

    pub fn with_name(name: String) -> (r: Trigger)
        ensures
            !r.triggered,
            r.base.can_step(),
            r.base.name == Some(name),
            r.inv(),
    {
        Trigger { base: GeneratorBase::with_name(name), triggered: false }
    }

    pub fn is_triggered(&self) -> (r: bool)
        ensures
            r == self.triggered,
    {
        self.triggered
    }

    /// One poll with the predicate's observed value.  Returns whether the
    /// triggered event fired during this call; the caller runs its callback
    /// exactly when that is true.
    pub fn step(&mut self, condition: bool) -> (fired: bool)
        requires
            old(self).inv(),
        ensures
            *final(self) == trigger_stepped(*old(self), condition),
            fired == trigger_fires(*old(self), condition),
            final(self).inv(),
    {
        if !(self.base.is_active() && self.base.is_running() && !self.base.is_completed()) {
            return false;
        }
        if condition {
            let fired = !self.triggered;
            self.triggered = true;
            self.base.complete();
            fired
        } else {
            false
        }
    }
}

/// The triggered event occurs at most once: after a step that fired, no later
/// step can fire again, whatever the predicate does afterwards.
pub proof fn lemma_trigger_fires_at_most_once(t: Trigger, c1: bool, c2: bool)
    requires
        trigger_fires(t, c1),
    ensures
        !trigger_fires(trigger_stepped(t, c1), c2),
{
}

/// The first step that observes a true predicate both fires and completes the
/// trigger; a false observation changes nothing at all.
pub proof fn lemma_trigger_first_true_completes(t: Trigger, condition: bool)
    ensures
        t.base.can_step() && condition ==> trigger_stepped(t, condition).base.completed,
        t.base.can_step() && condition && !t.triggered ==> trigger_fires(t, condition),
        !condition ==> trigger_stepped(t, condition) == t,
{
}

} // verus!
