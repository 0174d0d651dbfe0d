use vstd::prelude::*;

verus! {

/// How far ahead the heartbeat re-schedules itself, in counts of the
/// monotonic cycle counter.
pub const HEARTBEAT_PERIOD_CYCLES: u32 = 168000000;

/// Increment in the wrapping arithmetic of a 32-bit counter.
pub open spec fn wrapping_inc(c: u32) -> u32 {
    if c == 0xFFFF_FFFFu32 {
        0u32
    } else {
        (c + 1) as u32
    }
}

/// Addition in the wrapping arithmetic of the 32-bit monotonic counter.
pub open spec fn wrapping_add_spec(a: u32, b: u32) -> u32 {
    ((a + b) % 0x1_0000_0000) as u32
}

/// The lower-priority periodic unit of the cooperative design: a counter
/// that fires on its own schedule, independent of the hardware timer,
/// emitting one `tick <count>` diagnostic line per firing and re-scheduling
/// itself a fixed offset of monotonic-counter time into the future.
pub struct Heartbeat {
    pub count: u32,
}

impl Heartbeat {
    pub fn new() -> (h: Heartbeat)
        ensures
            h.count == 0,
    {
        Heartbeat { count: 0 }
    }

    /// One firing: hand out the counter value for this tick's diagnostic
    /// line, then advance the counter, wrapping around at the top.
    pub fn tick(&mut self) -> (t: u32)
        ensures
            t == old(self).count,
            final(self).count == wrapping_inc(old(self).count),
    {
        let t = self.count;
        self.count = if self.count == 0xFFFF_FFFFu32 {
            0
        } else {
            self.count + 1
        };
        t
    }
}

/// The absolute counter time of the next heartbeat firing: the time this
/// firing was scheduled for, plus the fixed period, in the counter's
/// wrapping arithmetic. Driving the schedule from the scheduled time rather
/// than from the current time keeps the rate fixed, free of drift.
pub fn next_schedule(scheduled: u32) -> (t: u32)
    ensures
        t == wrapping_add_spec(scheduled, HEARTBEAT_PERIOD_CYCLES),
{
    if scheduled <= u32::MAX - HEARTBEAT_PERIOD_CYCLES {
        scheduled + HEARTBEAT_PERIOD_CYCLES
    } else {
        HEARTBEAT_PERIOD_CYCLES - (u32::MAX - scheduled) - 1
    }
}

} // verus!
