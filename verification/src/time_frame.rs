use vstd::prelude::*;

verus! {

/// The kernel's notion of time, in ticks (nanoseconds by convention): the
/// current instant, the previous one, and the span between them.  Ticks are
/// relative to the frame's creation; the host supplies wall-clock readings
/// where real time is wanted, or injects deltas for deterministic runs.
#[derive(Clone, Copy)]
pub struct TimeFrame {
    pub now: u64,
    pub last: u64,
    pub delta: u64,
}

impl TimeFrame {
    pub fn new() -> (r: TimeFrame)
        ensures
            r.now == 0,
            r.last == 0,
            r.delta == 0,
    {
        TimeFrame { now: 0, last: 0, delta: 0 }
    }

    /// Advances to a wall-clock reading.  The clock is assumed monotone (the
    /// host reads a monotonic clock), hence the bound on `now`.
    pub fn update(&mut self, now: u64)
        requires
            now >= old(self).now,
        ensures
            final(self).last == old(self).now,
            final(self).delta == now - old(self).now,
            final(self).now == now,
    {
        self.last = self.now;
        self.delta = now - self.last;
        self.now = now;
    }

    /// Advances by an injected span, for deterministic runs.
    pub fn update_with_delta(&mut self, delta: u64)
        requires
            old(self).now + delta <= u64::MAX,
        ensures
            final(self).last == old(self).now,
            final(self).delta == delta,
            final(self).now == old(self).now + delta,
    {
        self.last = self.now;
        self.delta = delta;
        self.now = self.last + delta;
    }
}

} // verus!

verus! {

impl Default for TimeFrame {
    /// The zero frame, as `new` gives.
    fn default() -> (r: TimeFrame)
        ensures
            r.now == 0,
            r.last == 0,
            r.delta == 0,
    {
        TimeFrame::new()
    }
}

} // verus!
