use vstd::prelude::*;

use crate::generator::{completed_base, GeneratorBase};

verus! {

/// A single-assignment broadcast cell.  A producer stores a value with
/// `set_value` (a later write silently overwrites), which also completes the
/// generator; consumers read the value without removing it (`get_value`) or
/// take it out (`take_value`).  Every reader of a set cell observes the same
/// value.  Suspension-based waiting is host plumbing and lives outside this
/// model; polling `get_value` observes exactly the same state.
pub struct AsyncFuture<T> {
    pub base: GeneratorBase,
    pub value: Option<T>,
}

/// The state after `set_value(v)`: the slot holds `v` and the generator is
/// completed.
pub open spec fn future_set<T>(f: AsyncFuture<T>, v: T) -> AsyncFuture<T> {
    AsyncFuture { base: completed_base(f.base), value: Some(v) }
}

/// The state after one step: a cell that holds a value completes; an empty
/// cell stays as it is.
pub open spec fn future_stepped<T>(f: AsyncFuture<T>) -> AsyncFuture<T> {
    if f.base.can_step() && f.value is Some {
        AsyncFuture { base: completed_base(f.base), ..f }
    } else {
        f
    }
}

impl<T> AsyncFuture<T> {
    pub open spec fn inv(self) -> bool {
        self.base.inv()
    }

    pub fn new() -> (r: AsyncFuture<T>)
        ensures
            r.value is None,
            r.base.can_step(),
            r.base.name is None,
            r.inv(),
    {
        AsyncFuture { base: GeneratorBase::new(), value: None }
    }

    pub fn with_name(name: String) -> (r: AsyncFuture<T>)
        ensures
            r.value is None,
            r.base.can_step(),
            r.base.name == Some(name),
            r.inv(),
    {
        AsyncFuture { base: GeneratorBase::with_name(name), value: None }
    }

    /// Stores the value (last write wins) and completes the generator, so the
    /// value is immediately observable to every reader.
    pub fn set_value(&mut self, value: T)
        ensures
            *final(self) == future_set(*old(self), value),
            final(self).value == Some(value),
            final(self).base.completed,
            final(self).inv(),
    {
        self.value = Some(value);
        self.base.complete();
    }

    /// Peek without removing: every caller of a set cell gets the same value.
    pub fn get_value(&self) -> (r: Option<T>) where T: Copy
        ensures
            r == self.value,
    {
        self.value
    }

    /// A borrow of the slot, for values that cannot be copied.
    pub fn value_ref(&self) -> (r: &Option<T>)
        ensures
            r == &self.value,
    {
        &self.value
    }

    /// Removes and returns the value, leaving the slot empty.
    pub fn take_value(&mut self) -> (r: Option<T>)
        ensures
            r == old(self).value,
            final(self).value is None,
            final(self).base == old(self).base,
    {
        self.value.take()
    }

    pub fn is_ready(&self) -> (r: bool)
        ensures
            r == self.base.completed,
    {
        self.base.is_completed()
    }

    /// One poll: completes as soon as a value is present.  This is the
    /// redundant completion path alongside `set_value`'s own.
    pub fn step(&mut self)
        requires
            old(self).inv(),
        ensures
            *final(self) == future_stepped(*old(self)),
            final(self).inv(),
    {
        if !(self.base.is_active() && self.base.is_running() && !self.base.is_completed()) {
            return ;
        }
        if self.value.is_some() {
            self.base.complete();
        }
    }
}

/// Broadcast: once a value is set, the cell is completed and holds exactly
/// that value, so any number of readers observe the identical value; a later
/// write overwrites it for every subsequent reader alike.
pub proof fn lemma_future_broadcast<T>(f: AsyncFuture<T>, v: T, w: T)
    ensures
        future_set(f, v).value == Some(v),
        future_set(f, v).base.completed,
        future_set(future_set(f, v), w).value == Some(w),
{
}

} // verus!

verus! {

/// Polling completes a cell exactly when a value is present.
pub proof fn lemma_future_step_completes_iff<T>(f: AsyncFuture<T>)
    requires
        f.base.can_step(),
    ensures
        future_stepped(f).base.completed <==> f.value is Some,
        future_stepped(f).value == f.value,
{
}

impl<T> Default for AsyncFuture<T> {
    /// An empty, pollable cell, as `new` gives.
    fn default() -> (r: AsyncFuture<T>)
        ensures
            r.value is None,
            r.base.can_step(),
            r.inv(),
    {
        AsyncFuture::new()
    }
}

} // verus!
