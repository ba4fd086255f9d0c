use vstd::prelude::*;

verus! {

/// A repeating countdown: it accumulates elapsed milliseconds and owes a
/// firing whenever a full interval has built up.  Consuming a firing
/// subtracts the interval rather than zeroing the account, so overshoot
/// carries into the next round.
#[derive(Clone, Copy, PartialEq, Eq, Structural, Debug)]
pub struct SpawnTimer {
    /// Milliseconds accumulated and not yet consumed.
    pub accum_ms: u64,
    /// The repeat interval in milliseconds.
    pub interval_ms: u64,
}

impl SpawnTimer {
    /// A timer needs a positive interval to count against.
    pub open spec fn wf(self) -> bool {
        self.interval_ms >= 1
    }

    pub fn new(interval_ms: u64) -> (t: SpawnTimer)
        requires
            interval_ms >= 1,
        ensures
            t.interval_ms == interval_ms,
            t.accum_ms == 0,
            t.wf(),
    {
        SpawnTimer { accum_ms: 0, interval_ms }
    }

    /// Advance by one frame's elapsed time.
    pub fn tick(&mut self, elapsed_ms: u64)
        requires
            old(self).accum_ms + elapsed_ms <= u64::MAX,
        ensures
            final(self).accum_ms == old(self).accum_ms + elapsed_ms,
            final(self).interval_ms == old(self).interval_ms,
    {
        self.accum_ms = self.accum_ms + elapsed_ms;
    }

    /// Forget any accumulated time; done when a new game starts.
    pub fn reset(&mut self)
        ensures
            final(self).accum_ms == 0,
            final(self).interval_ms == old(self).interval_ms,
    {
        self.accum_ms = 0;
    }

    /// Whether a full interval has accumulated.
    pub fn due(&self) -> (d: bool)
        ensures
            d == (self.accum_ms >= self.interval_ms),
    {
        self.accum_ms >= self.interval_ms
    }

    /// Consume one firing if one is owed: subtract the interval, keeping
    /// the overshoot, and report whether it fired.
    pub fn consume_if_due(&mut self) -> (fired: bool)
        ensures
            fired == (old(self).accum_ms >= old(self).interval_ms),
            final(self).interval_ms == old(self).interval_ms,
            final(self).accum_ms == if fired {
                old(self).accum_ms - old(self).interval_ms
            } else {
                old(self).accum_ms as int
            },
    {
        if self.accum_ms >= self.interval_ms {
            self.accum_ms = self.accum_ms - self.interval_ms;
            true
        } else {
            false
        }
    }
}

} // verus!
