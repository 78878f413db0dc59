use vstd::prelude::*;

use crate::coroutine::{AsyncCoroutine, SyncCoroutine};
use crate::flow::{gen_base, gen_wf, with_base, Barrier, Generator, Node, Sequence};
use crate::generator::GeneratorBase;
use crate::future::AsyncFuture;
use crate::timer::{PeriodicTimer, Timer};
use crate::trigger::Trigger;

verus! {

/// Construction sugar: one place that makes every node kind.  Pure
/// delegation to the constructors — no behaviour of its own.
pub struct FlowFactory;

impl FlowFactory {
    pub fn new_node<T>() -> (r: Node<T>)
        ensures
            r.children@.len() == 0,
            r.base.can_step(),
            r.base.name is None,
    {
        Node::new()
    }

    pub fn new_node_with_name<T>(name: String) -> (r: Node<T>)
        ensures
            r.children@.len() == 0,
            r.base.can_step(),
            r.base.name == Some(name),
    {
        Node::with_name(name)
    }

    pub fn new_sequence<T>() -> (r: Sequence<T>)
        ensures
            r.children@.len() == 0,
            r.current_index == 0,
            r.base.can_step(),
            r.base.name is None,
    {
        Sequence::new()
    }

    pub fn new_sequence_with_name<T>(name: String) -> (r: Sequence<T>)
        ensures
            r.children@.len() == 0,
            r.current_index == 0,
            r.base.can_step(),
            r.base.name == Some(name),
    {
        Sequence::with_name(name)
    }

    pub fn new_barrier<T>() -> (r: Barrier<T>)
        ensures
            r.children@.len() == 0,
            r.base.can_step(),
            r.base.name is None,
    {
        Barrier::new()
    }

    pub fn new_barrier_with_name<T>(name: String) -> (r: Barrier<T>)
        ensures
            r.children@.len() == 0,
            r.base.can_step(),
            r.base.name == Some(name),
    {
        Barrier::with_name(name)
    }

    pub fn new_timer(duration: u64) -> (r: Timer)
        ensures
            r.duration == duration,
            r.start_time is None,
            r.base.can_step(),
            r.base.name is None,
    {
        Timer::new(duration)
    }

    pub fn new_timer_with_name(name: String, duration: u64) -> (r: Timer)
        ensures
            r.duration == duration,
            r.start_time is None,
            r.base.can_step(),
            r.base.name == Some(name),
    {
        Timer::with_name(name, duration)
    }

    pub fn new_periodic_timer(interval: u64) -> (r: PeriodicTimer)
        ensures
            r.interval == interval,
            r.last_trigger is None,
            r.base.can_step(),
            r.base.name is None,
    {
        PeriodicTimer::new(interval)
    }

    pub fn new_periodic_timer_with_name(name: String, interval: u64) -> (r: PeriodicTimer)
        ensures
            r.interval == interval,
            r.last_trigger is None,
            r.base.can_step(),
            r.base.name == Some(name),
    {
        PeriodicTimer::with_name(name, interval)
    }

    pub fn new_trigger() -> (r: Trigger)
        ensures
            !r.triggered,
            r.base.can_step(),
            r.base.name is None,
    {
        Trigger::new()
    }

    pub fn new_trigger_with_name(name: String) -> (r: Trigger)
        ensures
            !r.triggered,
            r.base.can_step(),
            r.base.name == Some(name),
    {
        Trigger::with_name(name)
    }

    pub fn new_async_coroutine(handle: tokio::task::JoinHandle<()>) -> (r: AsyncCoroutine)
        ensures
            r.handle is Some,
            r.base.can_step(),
            r.base.name is None,
    {
        AsyncCoroutine::new(handle)
    }

    pub fn new_async_coroutine_with_name(name: String, handle: tokio::task::JoinHandle<()>) -> (r:
        AsyncCoroutine)
        ensures
            r.handle is Some,
            r.base.can_step(),
            r.base.name == Some(name),
    {
        AsyncCoroutine::with_name(name, handle)
    }

    pub fn new_sync_coroutine<T>() -> (r: SyncCoroutine<T>)
        ensures
            r.value is None,
            r.base.can_step(),
            r.base.name is None,
    {
        SyncCoroutine::new()
    }

    pub fn new_future<T>() -> (r: AsyncFuture<T>)
        ensures
            r.value is None,
            r.base.can_step(),
            r.base.name is None,
    {
        AsyncFuture::new()
    }

    pub fn new_future_with_name<T>(name: String) -> (r: AsyncFuture<T>)
        ensures
            r.value is None,
            r.base.can_step(),
            r.base.name == Some(name),
    {
        AsyncFuture::with_name(name)
    }
}

/// Builder sugar shared by every generator: rename in flight while a tree is
/// being assembled.
pub trait FlowExtensions: Sized {
    fn named(self, name: String) -> Self;
}

impl<T> FlowExtensions for Generator<T> {
    /// The same generator under the given name.
    fn named(self, name: String) -> (r: Generator<T>)
        ensures
            r == with_base(self, GeneratorBase { name: Some(name), ..gen_base(self) }),
            gen_wf(self) ==> gen_wf(r),
    {
        let mut g = self;
        g.set_name(name);
        proof {
            if gen_wf(self) {
                lemma_rename_preserves_wf(self, g);
            }
        }
        g
    }
}

/// Renaming touches no flag, no child and no cursor, so it preserves
/// well-formedness.
proof fn lemma_rename_preserves_wf<T>(g: Generator<T>, r: Generator<T>)
    requires
        gen_wf(g),
        r == with_base(g, GeneratorBase { name: gen_base(r).name, ..gen_base(g) }),
    ensures
        gen_wf(r),
{
}

} // verus!
