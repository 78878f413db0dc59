use vstd::prelude::*;

use crate::generator::{completed_base, GeneratorBase};

verus! {

/// A one-shot deadline.  The start instant is latched on the first step, not
/// at construction; once `now - start >= duration` the timer reports its
/// elapsed event exactly once and completes.  Time is in ticks (the library
/// uses nanoseconds by convention, but any monotone unit works).
pub struct Timer {
    pub base: GeneratorBase,
    pub duration: u64,
    pub start_time: Option<u64>,
}

/// Whether a step at `now` observes the deadline and so fires the elapsed
/// event.  An unstarted timer latches `now` first, so it fires on its first
/// step only when the duration is zero.
pub open spec fn timer_fires(t: Timer, now: u64) -> bool {
    t.base.can_step() && match t.start_time {
        Some(s) => now >= s && now - s >= t.duration,
        None => t.duration == 0,
    }
}

/// The timer state after one step at `now`.
pub open spec fn timer_stepped(t: Timer, now: u64) -> Timer {
    if !t.base.can_step() {
        t
    } else {
        let start = match t.start_time {
            Some(s) => s,
            None => now,
        };
        if timer_fires(t, now) {
            Timer { base: completed_base(t.base), start_time: Some(start), ..t }
        } else {
            Timer { start_time: Some(start), ..t }
        }
    }
}

impl Timer {
    pub open spec fn inv(self) -> bool {
        self.base.inv()
    }

    pub fn new(duration: u64) -> (r: Timer)
        ensures
            r.duration == duration,
            r.start_time is None,
            r.base.can_step(),
            r.base.name is None,
            r.inv(),
    {
        Timer { base: GeneratorBase::new(), duration, start_time: None }
    }

    pub fn with_name(name: String, duration: u64) -> (r: Timer)
        ensures
            r.duration == duration,
            r.start_time is None,
            r.base.can_step(),
            r.base.name == Some(name),
            r.inv(),
    {
        Timer { base: GeneratorBase::with_name(name), duration, start_time: None }
    }

    /// Whether the latched deadline has passed at `now`.  False while the
    /// timer has not been stepped (no start instant yet).
    pub fn is_elapsed(&self, now: u64) -> (r: bool)
        ensures
            r == match self.start_time {
                Some(s) => now >= s && now - s >= self.duration,
                None => false,
            },
    {
        match self.start_time {
            Some(s) => now >= s && now - s >= self.duration,
            None => false,
        }
    }

    /// One poll at `now`: latch the start instant if needed, then fire and
    /// complete when the deadline has been reached.  Returns whether the
    /// elapsed event fired during this call; the caller runs its callback
    /// exactly when that is true.
    pub fn step(&mut self, now: u64) -> (fired: bool)
        requires
            old(self).inv(),
        ensures
            *final(self) == timer_stepped(*old(self), now),
            fired == timer_fires(*old(self), now),
            final(self).inv(),
    {
        if !(self.base.is_active() && self.base.is_running() && !self.base.is_completed()) {
            return false;
        }
        if self.start_time.is_none() {
            self.start_time = Some(now);
        }
        let fired = self.is_elapsed(now);
        if fired {
            self.base.complete();
        }
        fired
    }
}

/// A fired timer is completed, so no later step can fire it again: the
/// elapsed event of a timer occurs at most once over any run.
pub proof fn lemma_timer_fires_at_most_once(t: Timer, n1: u64, n2: u64)
    requires
        timer_fires(t, n1),
    ensures
        !timer_fires(timer_stepped(t, n1), n2),
{
}

/// The deadline is honoured: a timer whose start instant is latched at `s`
/// fires only at instants `now >= s + duration`, so `completed` becomes true
/// no earlier than one duration after the first step.
pub proof fn lemma_timer_fires_no_earlier(t: Timer, s: u64, now: u64)
    requires
        t.start_time == Some(s),
        timer_fires(t, now),
    ensures
        now >= s + t.duration,
{
}

/// Stepping latches the start instant on the first eligible step and then
/// never changes it, and it never changes the duration.
pub proof fn lemma_timer_start_latched(t: Timer, now: u64)
    ensures
        timer_stepped(t, now).duration == t.duration,
        t.base.can_step() && t.start_time is None ==> timer_stepped(t, now).start_time == Some(
            now,
        ),
        t.start_time is Some ==> timer_stepped(t, now).start_time == t.start_time,
{
}

/// A repeating deadline.  Fires immediately on its first step, then whenever
/// one interval has passed since the instant of the previous firing; drift is
/// not compensated.  It never completes by itself.
pub struct PeriodicTimer {
    pub base: GeneratorBase,
    pub interval: u64,
    pub last_trigger: Option<u64>,
}

/// Whether a step at `now` fires the periodic event: always on the first
/// observation, afterwards when an interval has passed since the last firing.
pub open spec fn periodic_fires(p: PeriodicTimer, now: u64) -> bool {
    p.base.can_step() && match p.last_trigger {
        Some(last) => now >= last && now - last >= p.interval,
        None => true,
    }
}

/// The periodic timer state after one step at `now`.  The lifecycle flags are
/// never touched: a periodic timer has no terminal condition of its own.
pub open spec fn periodic_stepped(p: PeriodicTimer, now: u64) -> PeriodicTimer {
    if periodic_fires(p, now) {
        PeriodicTimer { last_trigger: Some(now), ..p }
    } else {
        p
    }
}

impl PeriodicTimer {
    pub open spec fn inv(self) -> bool {
        self.base.inv()
    }

    pub fn new(interval: u64) -> (r: PeriodicTimer)
        ensures
            r.interval == interval,
            r.last_trigger is None,
            r.base.can_step(),
            r.base.name is None,
            r.inv(),
    {
        PeriodicTimer { base: GeneratorBase::new(), interval, last_trigger: None }
    }

    pub fn with_name(name: String, interval: u64) -> (r: PeriodicTimer)
        ensures
            r.interval == interval,
            r.last_trigger is None,
            r.base.can_step(),
            r.base.name == Some(name),
            r.inv(),
    {
        PeriodicTimer { base: GeneratorBase::with_name(name), interval, last_trigger: None }
    }

    /// One poll at `now`.  Returns whether the periodic event fired during
    /// this call; the caller runs its callback exactly when that is true.
    pub fn step(&mut self, now: u64) -> (fired: bool)
        requires
            old(self).inv(),
        ensures
            *final(self) == periodic_stepped(*old(self), now),
            fired == periodic_fires(*old(self), now),
            final(self).inv(),
    {
        if !(self.base.is_active() && self.base.is_running() && !self.base.is_completed()) {
            return false;
        }
        let due = match self.last_trigger {
            Some(last) => now >= last && now - last >= self.interval,
            None => true,
        };
        if due {
            self.last_trigger = Some(now);
        }
        due
    }
}

/// A periodic timer never completes itself: stepping leaves every lifecycle
/// flag exactly as it was, so only a callback or an external `complete` call
/// can stop it.
pub proof fn lemma_periodic_never_completes(p: PeriodicTimer, now: u64)
    ensures
        periodic_stepped(p, now).base == p.base,
{
}

/// Firings are spaced by at least one interval: after a firing at `n1`, the
/// next step can fire no earlier than `n1 + interval`.
pub proof fn lemma_periodic_spacing(p: PeriodicTimer, n1: u64, n2: u64)
    requires
        periodic_fires(p, n1),
        periodic_fires(periodic_stepped(p, n1), n2),
    ensures
        n2 >= n1 + p.interval,
{
}

} // verus!

verus! {

/// A timer completes through its firing alone: a step that completes a
/// previously incomplete timer is exactly a step on which it fired.
pub proof fn lemma_timer_completes_only_by_firing(t: Timer, now: u64)
    requires
        !t.base.completed,
    ensures
        timer_stepped(t, now).base.completed <==> timer_fires(t, now),
{
}

} // verus!

verus! {

/// The one-shot deadline composed over a run: a timer first stepped at `n1`
/// can fire — and so complete — only at instants `n2 >= n1 + duration`.
pub proof fn lemma_timer_deadline_honoured(t: Timer, n1: u64, n2: u64)
    requires
        t.start_time is None,
        t.base.can_step(),
        timer_fires(timer_stepped(t, n1), n2),
    ensures
        n2 >= n1 + t.duration,
{
}

} // verus!
