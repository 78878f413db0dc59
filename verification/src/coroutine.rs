use vstd::prelude::*;

use crate::generator::{completed_base, GeneratorBase};

verus! {

#[verifier::external_type_specification]
#[verifier::external_body]
#[verifier::reject_recursive_types(T)]
pub struct ExJoinHandle<T>(tokio::task::JoinHandle<T>);

#[verifier::external_type_specification]
#[verifier::external_body]
pub struct ExJoinError(tokio::task::JoinError);

/// Relies on tokio::task::JoinHandle::is_finished: true exactly when the
/// spawned task has run to completion (or was cancelled).  When it becomes
/// true depends on the runtime, so nothing is promised of the result.
#[verifier::external_body]
fn join_handle_is_finished(handle: &tokio::task::JoinHandle<()>) -> bool {
    handle.is_finished()
}

/// A wrapper around one unit of detached background work.  The task starts
/// executing when it is spawned — before the wrapper is ever stepped — and
/// each step only polls whether it has finished; once it has, the wrapper
/// releases the handle and completes.  Cancellation is cooperative: nothing
/// here preempts work already handed to the runtime.
pub struct AsyncCoroutine {
    pub base: GeneratorBase,
    pub handle: Option<tokio::task::JoinHandle<()>>,
}

/// The state after one step that observed `finished`: the handle is released
/// and the generator completed exactly when the background work was seen to
/// be done.
pub open spec fn coroutine_stepped(c: AsyncCoroutine, finished: bool) -> AsyncCoroutine {
    if c.base.can_step() && finished {
        AsyncCoroutine { base: completed_base(c.base), handle: None }
    } else {
        c
    }
}

impl AsyncCoroutine {
    pub open spec fn inv(self) -> bool {
        self.base.inv()
    }

    /// Wraps a task that the caller has already spawned on the host runtime;
    /// the work is running (or done) from this moment on.
    pub fn new(handle: tokio::task::JoinHandle<()>) -> (r: AsyncCoroutine)
        ensures
            r.handle is Some,
            r.base.can_step(),
            r.base.name is None,
            r.inv(),
    {
        AsyncCoroutine { base: GeneratorBase::new(), handle: Some(handle) }
    }

    pub fn with_name(name: String, handle: tokio::task::JoinHandle<()>) -> (r: AsyncCoroutine)
        ensures
            r.handle is Some,
            r.base.can_step(),
            r.base.name == Some(name),
            r.inv(),
    {
        AsyncCoroutine { base: GeneratorBase::with_name(name), handle: Some(handle) }
    }

    /// One poll.  Returns whether the background work was observed finished
    /// during this call (a released handle counts as finished); exactly then
    /// the wrapper completes.  When it returns depends only on the host
    /// runtime, so the contract holds for either outcome.
    pub fn step(&mut self) -> (finished: bool)
        requires
            old(self).inv(),
        ensures
            *final(self) == coroutine_stepped(*old(self), finished),
            final(self).inv(),
            finished ==> final(self).base.completed,
            !finished ==> *final(self) == *old(self),
    {
        if !(self.base.is_active() && self.base.is_running() && !self.base.is_completed()) {
            return false;
        }
        let finished = match &self.handle {
            Some(h) => join_handle_is_finished(h),
            None => true,
        };
        if finished {
            self.handle = None;
            self.base.complete();
        }
        finished
    }
}

/// A poll-driven generator.  The host owns the step function; each step hands
/// in what that function produced: a value keeps the coroutine going and is
/// stored as the current value, an absent value completes it.  Entirely a
/// function of how often it is stepped — no concurrency is involved.
pub struct SyncCoroutine<T> {
    pub base: GeneratorBase,
    pub value: Option<T>,
}

/// The state after one step whose step function produced `produced`.
pub open spec fn sync_stepped<T>(s: SyncCoroutine<T>, produced: Option<T>) -> SyncCoroutine<T> {
    if !s.base.can_step() {
        s
    } else {
        match produced {
            Some(v) => SyncCoroutine { value: Some(v), ..s },
            None => SyncCoroutine { base: completed_base(s.base), ..s },
        }
    }
}

impl<T> SyncCoroutine<T> {
    pub open spec fn inv(self) -> bool {
        self.base.inv()
    }

    pub fn new() -> (r: SyncCoroutine<T>)
        ensures
            r.value is None,
            r.base.can_step(),
            r.base.name is None,
            r.inv(),
    {
        SyncCoroutine { base: GeneratorBase::new(), value: None }
    }

    /// The most recent value the step function produced.
    pub fn value(&self) -> (r: &Option<T>)
        ensures
            r == &self.value,
    {
        &self.value
    }

    /// One poll with what the held step function produced this time.
    pub fn step(&mut self, produced: Option<T>)
        requires
            old(self).inv(),
        ensures
            *final(self) == sync_stepped(*old(self), produced),
            final(self).inv(),
    {
        if !(self.base.is_active() && self.base.is_running() && !self.base.is_completed()) {
            return ;
        }
        match produced {
            Some(v) => {
                self.value = Some(v);
            },
            None => {
                self.base.complete();
            },
        }
    }
}

/// A sync coroutine completes exactly when its step function has nothing left
/// to produce, and a produced value never completes it.
pub proof fn lemma_sync_coroutine_completes_on_exhaustion<T>(s: SyncCoroutine<T>, v: T)
    requires
        s.base.can_step(),
    ensures
        sync_stepped(s, None::<T>).base.completed,
        !sync_stepped(s, Some(v)).base.completed,
        sync_stepped(s, Some(v)).value == Some(v),
{
}

} // verus!
