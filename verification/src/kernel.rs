use vstd::prelude::*;

use crate::flow::{gen_base, gen_step_rel, gen_wf, Generator, Node};
use crate::generator::GeneratorBase;
use crate::host::StepHost;
use crate::time_frame::TimeFrame;

verus! {

/// The poll-loop driver.  It owns one root node (the attachment point for
/// all scheduled work), a time frame, a cooperative break flag, and an
/// optional global wait deadline.  One scheduling cycle — a no-op while
/// breaking or waiting, otherwise a step of the root followed by pruning the
/// root's completed direct children — runs after each time-frame advance.
/// The real-time run loops belong to the host: they read a clock, call
/// `update_real_time` or `update`, and sleep between cycles, until the break
/// flag is set, the root drains, or their time budget runs out.
pub struct AsyncKernel<T> {
    pub base: GeneratorBase,
    pub root: Node<T>,
    pub time_frame: TimeFrame,
    pub break_flag: bool,
    pub wait_until: Option<u64>,
}

impl<T> AsyncKernel<T> {
    pub open spec fn inv(self) -> bool {
        self.base.inv() && gen_wf(Generator::Node(self.root))
    }

    /// Whether the global wait deadline suspends the kernel's stepping at
    /// the frame's current instant.
    pub open spec fn waiting_spec(self) -> bool {
        match self.wait_until {
            Some(until) => self.time_frame.now < until,
            None => false,
        }
    }

    /// A scheduling cycle does nothing while the kernel is ineligible,
    /// breaking, or waiting.
    pub open spec fn skips_cycle(self) -> bool {
        !self.base.can_step() || self.break_flag || self.waiting_spec()
    }
}

/// What one scheduling cycle does: nothing when it is skipped; otherwise the
/// root moves by one fan-out step at the frame's current instant and its
/// completed direct children are pruned (non-recursively), while the
/// kernel's own state, frame and flags stay put.
pub open spec fn cycle_rel<T>(pre: AsyncKernel<T>, post: AsyncKernel<T>) -> bool {
    if pre.skips_cycle() {
        post == pre
    } else {
        &&& post.base == pre.base
        &&& post.time_frame == pre.time_frame
        &&& post.break_flag == pre.break_flag
        &&& post.wait_until == pre.wait_until
        &&& exists|mid: Node<T>|
            {
                &&& #[trigger] gen_step_rel(
                    Generator::Node(pre.root),
                    Generator::Node(mid),
                    pre.time_frame.now,
                )
                &&& post.root.base == mid.base
                &&& post.root.children@ == mid.children@.filter(
                    |c: Generator<T>| !gen_base(c).completed,
                )
            }
    }
}

impl<T> AsyncKernel<T> {
    pub fn new() -> (r: AsyncKernel<T>)
        ensures
            r.base.can_step(),
            r.root.children@.len() == 0,
            r.time_frame.now == 0,
            !r.break_flag,
            r.wait_until is None,
            r.inv(),
    {
        AsyncKernel {
            base: GeneratorBase::new(),
            root: Node::new(),
            time_frame: TimeFrame::new(),
            break_flag: false,
            wait_until: None,
        }
    }

    /// The attachment point for scheduled work, for inspection.
    pub fn root(&self) -> (r: &Node<T>)
        ensures
            r == &self.root,
    {
        &self.root
    }

    /// Attaches a generator under the root; a well-formed child keeps the
    /// kernel's invariant.
    pub fn add_child(&mut self, child: Generator<T>)
        ensures
            final(self).root.children@ == old(self).root.children@.push(child),
            final(self).root.base == old(self).root.base,
            final(self).base == old(self).base,
            final(self).time_frame == old(self).time_frame,
            final(self).break_flag == old(self).break_flag,
            final(self).wait_until == old(self).wait_until,
            old(self).inv() && gen_wf(child) ==> final(self).inv(),
    {
        self.root.add_child(child);
    }

    pub fn child_count(&self) -> (r: usize)
        ensures
            r == self.root.children@.len(),
    {
        self.root.child_count()
    }

    pub fn time_frame(&self) -> (r: TimeFrame)
        ensures
            r == self.time_frame,
    {
        self.time_frame
    }

    /// Requests a cooperative stop: every later cycle is a no-op.  A step
    /// already in progress is not preempted.
    pub fn break_flow(&mut self)
        ensures
            *final(self) == (AsyncKernel { break_flag: true, ..*old(self) }),
    {
        self.break_flag = true;
    }

    pub fn is_breaking(&self) -> (r: bool)
        ensures
            r == self.break_flag,
    {
        self.break_flag
    }

    /// Suspends the kernel's own stepping until `duration` ticks past the
    /// frame's current instant (saturating at the largest instant).
    /// Detached background work keeps running regardless.
    pub fn wait(&mut self, duration: u64)
        ensures
            *final(self) == (AsyncKernel {
                wait_until: Some(
                    if old(self).time_frame.now + duration <= u64::MAX {
                        (old(self).time_frame.now + duration) as u64
                    } else {
                        u64::MAX
                    },
                ),
                ..*old(self)
            }),
    {
        let until = if self.time_frame.now <= u64::MAX - duration {
            self.time_frame.now + duration
        } else {
            u64::MAX
        };
        self.wait_until = Some(until);
    }

    pub fn is_waiting(&self) -> (r: bool)
        ensures
            r == self.waiting_spec(),
    {
        match self.wait_until {
            Some(until) => self.time_frame.now < until,
            None => false,
        }
    }

    pub fn clear_wait(&mut self)
        ensures
            *final(self) == (AsyncKernel { wait_until: None, ..*old(self) }),
    {
        self.wait_until = None;
    }

    /// One scheduling cycle at the frame's current instant, exactly as
    /// `cycle_rel` prescribes.
    pub fn step<H: StepHost<T>>(&mut self, host: &mut H)
        requires
            old(self).inv(),
        ensures
            cycle_rel(*old(self), *final(self)),
            final(self).inv(),
    {
        if !(self.base.is_active() && self.base.is_running() && !self.base.is_completed()) {
            return ;
        }
        if self.break_flag {
            return ;
        }
        if self.is_waiting() {
            return ;
        }
        let now = self.time_frame.now;
        let mut work: Node<T> = Node::new();
        core::mem::swap(&mut work, &mut self.root);
        let mut mid = work.step(now, host);
        let ghost mid0 = mid;
        mid.clear_completed();
        proof {
            crate::flow::lemma_kids_wf_filter(
                mid0.children@,
                |c: Generator<T>| !gen_base(c).completed,
            );
        }
        self.root = mid;
    }

    /// Advances the frame by an injected span, then runs one cycle.
    pub fn update<H: StepHost<T>>(&mut self, delta: u64, host: &mut H)
        requires
            old(self).inv(),
            old(self).time_frame.now + delta <= u64::MAX,
        ensures
            final(self).time_frame.last == old(self).time_frame.now,
            final(self).time_frame.delta == delta,
            final(self).time_frame.now == old(self).time_frame.now + delta,
            cycle_rel(
                AsyncKernel { time_frame: final(self).time_frame, ..*old(self) },
                *final(self),
            ),
            final(self).inv(),
    {
        self.time_frame.update_with_delta(delta);
        self.step(host);
    }

    /// Advances the frame to a wall-clock reading (monotone, supplied by the
    /// host), then runs one cycle.
    pub fn update_real_time<H: StepHost<T>>(&mut self, now: u64, host: &mut H)
        requires
            old(self).inv(),
            now >= old(self).time_frame.now,
        ensures
            final(self).time_frame.last == old(self).time_frame.now,
            final(self).time_frame.now == now,
            cycle_rel(
                AsyncKernel { time_frame: final(self).time_frame, ..*old(self) },
                *final(self),
            ),
            final(self).inv(),
    {
        self.time_frame.update(now);
        self.step(host);
    }
}

} // verus!

verus! {

impl<T> Default for AsyncKernel<T> {
    /// An idle kernel with an empty root, as `new` gives.
    fn default() -> (r: AsyncKernel<T>)
        ensures
            r.base.can_step(),
            r.root.children@.len() == 0,
            r.time_frame.now == 0,
            !r.break_flag,
            r.wait_until is None,
            r.inv(),
    {
        AsyncKernel::new()
    }
}

} // verus!

verus! {

/// Pruning is sound and complete at the root: after a cycle that was not
/// skipped, every direct child still under the root is unfinished — the
/// completed ones are exactly what pruning removed.
pub proof fn lemma_cycle_prunes_completed<T>(pre: AsyncKernel<T>, post: AsyncKernel<T>)
    requires
        cycle_rel(pre, post),
        !pre.skips_cycle(),
    ensures
        forall|i: int|
            0 <= i < post.root.children@.len() ==> !gen_base(
                #[trigger] post.root.children@[i],
            ).completed,
{
    let mid = choose|mid: Node<T>|
        {
            &&& #[trigger] gen_step_rel(
                Generator::Node(pre.root),
                Generator::Node(mid),
                pre.time_frame.now,
            )
            &&& post.root.base == mid.base
            &&& post.root.children@ == mid.children@.filter(
                |c: Generator<T>| !gen_base(c).completed,
            )
        };
    mid.children@.filter_lemma(|c: Generator<T>| !gen_base(c).completed);
}

} // verus!
