//! Ticks of CH581, CH582 and CH583: 60 counts each.

use vstd::prelude::*;

use crate::words;

verus! {

/// The number of whole ticks in `counts`.
pub fn counter_to_ticks(counts: u64) -> (ticks: u64)
    ensures
        ticks == counts / 60,
{
    counts / 60
}

/// The count at which `ticks` ticks have passed, or the largest count.
pub open spec fn spec_ticks_to_counter_ceil(ticks: u64) -> int {
    if ticks * 60 <= u64::MAX {
        ticks * 60
    } else {
        u64::MAX as int
    }
}

/// The count at which `ticks` ticks have passed, or the largest count if that
/// count does not fit.
pub fn ticks_to_counter_ceil(ticks: u64) -> (counts: u64)
    ensures
        counts == spec_ticks_to_counter_ceil(ticks),
{
    match ticks.checked_mul(60) {
        Some(counts) => counts,
        None => u64::MAX,
    }
}

/// Joins two reads of the counter's high word and one of its low word, taken in
/// between. The value counts only if the high word did not change meanwhile.
pub fn stable_counter(high_before: u32, low: u32, high_after: u32) -> (counter: Option<u64>)
    ensures
        counter == (if high_before == high_after {
            Some((high_before * 0x1_0000_0000 + low) as u64)
        } else {
            None
        }),
{
    if high_before == high_after {
        Some(words::join(high_before, low))
    } else {
        None
    }
}

/// A stable value is what the counter showed when its low word was read, even
/// though the counter was running.
pub proof fn stable_counter_is_exact(before: u64, between: u64, after: u64)
    requires
        before <= between <= after,
        before / 0x1_0000_0000 == after / 0x1_0000_0000,
    ensures
        (before / 0x1_0000_0000) * 0x1_0000_0000 + between % 0x1_0000_0000 == between,
{
}

} // verus!
