//! The pacer: when the next page is due, and how long to wait for it.

use vstd::prelude::*;

verus! {

/// The sum of `a` and `b`, held at the largest value where it would pass it.
pub open spec fn saturating_sum(a: u64, b: u64) -> u64 {
    if a + b > u64::MAX {
        u64::MAX
    } else {
        (a + b) as u64
    }
}

/// What a pump is, as a mathematical value. Times are nanoseconds on a
/// monotonic clock.
pub struct PumpView {
    /// When the next page is due.
    pub next_pull: u64,
    /// The retention window of the buffer that the pages go to.
    pub buffer_size: u64,
}

impl PumpView {
    /// When the next page is due once the clock reads `now`: unchanged,
    /// unless the clock has overtaken it by the retention window or more;
    /// then it is moved up to one window before `now`.
    pub open spec fn corrected(self, now: u64) -> u64 {
        if now >= self.next_pull && now - self.next_pull >= self.buffer_size {
            (now - self.buffer_size) as u64
        } else {
            self.next_pull
        }
    }

    /// How long to sleep at `now` before the next page is pulled.
    pub open spec fn sleep(self, now: u64) -> u64 {
        if self.corrected(now) > now {
            (self.corrected(now) - now) as u64
        } else {
            0
        }
    }
}

/// Paces the pulls of pages to the durations of the pages pulled.
pub struct Pump {
    next_pull: u64,
    buffer_size: u64,
}

impl View for Pump {
    type V = PumpView;

    closed spec fn view(&self) -> PumpView {
        PumpView { next_pull: self.next_pull, buffer_size: self.buffer_size }
    }
}

impl Pump {
    /// A pump whose first page is due at `now`.
    pub fn new(now: u64, buffer_size: u64) -> (pump: Pump)
        ensures
            pump@ == (PumpView { next_pull: now, buffer_size }),
    {
        Pump { next_pull: now, buffer_size }
    }

    /// When the next page is due.
    pub fn next_pull(&self) -> (due: u64)
        ensures
            due == self@.next_pull,
    {
        self.next_pull
    }

    /// Corrects for a stall, then says how long to sleep before the next
    /// pull so that it happens when it is due.
    pub fn wait(&mut self, now: u64) -> (sleep: u64)
        ensures
            sleep == old(self)@.sleep(now),
            final(self)@ == (PumpView { next_pull: old(self)@.corrected(now), ..old(self)@ }),
    {
        if now >= self.next_pull && now - self.next_pull >= self.buffer_size {
            self.next_pull = now - self.buffer_size;
        }
        if self.next_pull > now {
            self.next_pull - now
        } else {
            0
        }
    }

    /// Accounts for a page of the given duration: the next is due that much
    /// later.
    pub fn advance(&mut self, duration: u64)
        ensures
            final(self)@ == (PumpView {
                next_pull: saturating_sum(old(self)@.next_pull, duration),
                ..old(self)@
            }),
    {
        self.next_pull = if self.next_pull > u64::MAX - duration {
            u64::MAX
        } else {
            self.next_pull + duration
        };
    }
}

/// After a stall the pump is never more than one retention window behind
/// the clock, so it cannot burst out more than a window's worth of pages;
/// and it never sleeps past the time the page is due.
pub proof fn law_stall_is_bounded(pump: PumpView, now: u64)
    ensures
        now - pump.corrected(now) <= pump.buffer_size,
        pump.corrected(now) >= pump.next_pull,
        now + pump.sleep(now) >= pump.corrected(now),
        pump.sleep(now) > 0 ==> now + pump.sleep(now) == pump.next_pull,
{
}

} // verus!
