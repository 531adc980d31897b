//! Ticks of CH584 and CH585: 62.4 counts each, and a counter of 32 bits.

use vstd::prelude::*;

use crate::words;

verus! {

/// The number of whole ticks in `counts`: five ticks in 312 counts.
pub fn counter_to_ticks(counts: u64) -> (ticks: u64)
    ensures
        ticks == counts * 5 / 312,
{
    let ticks: u64 = (counts / 312) * 5 + (counts % 312) * 5 / 312;
    assert(counts == 312 * (counts / 312) + counts % 312);
    ticks
}

/// The least count at which `ticks` ticks have passed, or the largest count.
pub open spec fn spec_ticks_to_counter_ceil(ticks: u64) -> int {
    if (ticks * 312 + 4) / 5 <= u64::MAX {
        (ticks * 312 + 4) / 5
    } else {
        u64::MAX as int
    }
}

/// The least count at which `ticks` ticks have passed, or the largest count if
/// that count does not fit.
pub fn ticks_to_counter_ceil(ticks: u64) -> (counts: u64)
    ensures
        counts == spec_ticks_to_counter_ceil(ticks),
{
    let rest: u64 = ((ticks % 5) * 312 + 4) / 5;
    assert(ticks == 5 * (ticks / 5) + ticks % 5);
    assert((ticks * 312 + 4) / 5 == (ticks / 5) * 312 + rest);
    match (ticks / 5).checked_mul(312) {
        Some(whole) => whole.saturating_add(rest),
        None => u64::MAX,
    }
}

/// Extends the 32-bit counter to 64 bits.
#[derive(Clone, Copy, Debug, PartialEq, Eq, Structural)]
pub struct Ch585CounterEpoch {
    /// The counter when it was last observed.
    pub last_low: u32,
    /// How often the counter was seen to start over.
    pub high: u32,
}

impl Ch585CounterEpoch {
    /// The extended value of the last observation.
    pub open spec fn value(self) -> int {
        self.high * 0x1_0000_0000 + self.last_low
    }

    /// Observes the counter and gives its extended value. A counter below the
    /// last observation has started over.
    pub fn observe(&mut self, low: u32) -> (value: u64)
        ensures
            final(self).last_low == low,
            final(self).high == (if low < old(self).last_low {
                (old(self).high + 1) % 0x1_0000_0000
            } else {
                old(self).high as int
            }),
            value == final(self).value(),
    {
        if low < self.last_low {
            self.high = self.high.wrapping_add(1);
        }
        self.last_low = low;
        words::join(self.high, low)
    }

    /// The epoch after the counter showed `low`.
    pub open spec fn observed(self, low: u32) -> Ch585CounterEpoch {
        Ch585CounterEpoch {
            last_low: low,
            high: if low < self.last_low {
                ((self.high + 1) % 0x1_0000_0000) as u32
            } else {
                self.high
            },
        }
    }
}

/// The extended value is the true one as long as the counter is observed before
/// it has gone once around since the last observation: `last` counts had passed
/// then, and `now` have passed now.
pub proof fn epoch_follows_counter(epoch: Ch585CounterEpoch, last: int, now: int)
    requires
        epoch.value() == last,
        last <= now < last + 0x1_0000_0000,
        now <= u64::MAX,
    ensures
        epoch.observed((now % 0x1_0000_0000) as u32).value() == now,
{
}

/// The 64-bit value whose low word to compare with, for an alarm at `target`
/// when the counter shows `now`. A target beyond the next start of the counter
/// would match one round too early, so the next start itself is taken instead.
pub open spec fn spec_alarm_counter(target: u64, now: u64) -> int {
    if target / 0x1_0000_0000 > now / 0x1_0000_0000 + 1 {
        (now / 0x1_0000_0000 + 1) * 0x1_0000_0000
    } else {
        target as int
    }
}

/// The 64-bit value whose low word to compare with, for an alarm at `target`
/// when the counter shows `now`.
pub fn ch585_alarm_counter(target: u64, now: u64) -> (counter: u64)
    ensures
        counter == spec_alarm_counter(target, now),
{
    let current_epoch: u64 = now / 0x1_0000_0000;
    let target_epoch: u64 = target / 0x1_0000_0000;
    if target_epoch > current_epoch + 1 {
        (current_epoch + 1) * 0x1_0000_0000
    } else {
        target
    }
}

/// An alarm is never late: the value to compare with lies after `now` and not
/// after the target, so the low words meet by then.
pub proof fn alarm_is_not_late(target: u64, now: u64)
    requires
        now < target,
    ensures
        now < spec_alarm_counter(target, now) <= target,
{
}

/// An alarm at most one round away is exact: the low words do not meet before
/// the target.
pub proof fn near_alarm_is_exact(target: u64, now: u64, count: int)
    requires
        now < count < target,
        target - now <= 0x1_0000_0000,
    ensures
        spec_alarm_counter(target, now) == target,
        count % 0x1_0000_0000 != spec_alarm_counter(target, now) % 0x1_0000_0000,
{
}

} // verus!
