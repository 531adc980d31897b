//! What the time driver does, measured by the clock of the chip.

use vstd::prelude::*;

use crate::chip::Chip;
use crate::pfic::PficAction;
use crate::time::ch582;
use crate::time::ch585;
use crate::time::driver;
use crate::time::driver::{AlarmStage, TimeAction, TimeDriver};

verus! {

/// Counts in a second: the counter runs at 60 MHz on CH582 and at 62.4 MHz on
/// CH585.
pub open spec fn clock(chip: Chip) -> int {
    match chip {
        Chip::Ch582 => 60_000_000,
        Chip::Ch585 => 62_400_000,
    }
}

/// Whether a counter that shows `counts` has run for `ticks` whole microseconds.
pub open spec fn has_run(chip: Chip, counts: int, ticks: int) -> bool {
    ticks * clock(chip) <= counts * 1_000_000
}

/// Whether `counts` is the least count at which `ticks` microseconds have passed.
pub open spec fn is_first_count(chip: Chip, counts: int, ticks: int) -> bool {
    has_run(chip, counts, ticks) && !has_run(chip, counts - 1, ticks)
}

/// Whether the largest count is reached before `ticks` microseconds have passed.
pub open spec fn is_out_of_range(chip: Chip, ticks: int) -> bool {
    !has_run(chip, u64::MAX - 1, ticks)
}

/// Whether `target` is the count of an alarm at tick `at`: one after the first
/// count of the tick, or the largest count if the tick is out of range.
pub open spec fn is_alarm_count(chip: Chip, target: int, at: int) -> bool {
    if is_out_of_range(chip, at) {
        target == u64::MAX
    } else {
        is_first_count(chip, target - 1, at)
    }
}

/// A tick is a microsecond: the ticks of a count are exactly the whole
/// microseconds that the counter has run.
pub proof fn tick_is_a_microsecond(chip: Chip, counts: u64, ticks: u64)
    requires
        call_ensures(driver::counter_to_ticks, (chip, counts), ticks),
    ensures
        has_run(chip, counts as int, ticks as int),
        !has_run(chip, counts as int, ticks + 1),
{
}

/// The count of a tick is the first one at which the tick has come, or the largest
/// one if that is too large.
pub proof fn tick_begins_at_its_count(chip: Chip, ticks: u64, counts: u64)
    requires
        call_ensures(driver::ticks_to_counter_ceil, (chip, ticks), counts),
    ensures
        counts < u64::MAX ==> is_first_count(chip, counts as int, ticks as int),
        counts == u64::MAX <==> is_out_of_range(chip, ticks as int),
{
}

/// An alarm is neither early nor late: its target is one count after the first
/// count of its tick, and still within that tick; an alarm beyond the range of the
/// counter is at the largest count.
pub proof fn alarm_is_one_count_after_its_tick(chip: Chip, at: u64)
    ensures
        ({
            let target = driver::alarm_target(chip, at);
            &&& is_alarm_count(chip, target, at as int)
            &&& !is_out_of_range(chip, at as int) ==> has_run(chip, target, at as int)
                && !has_run(chip, target, at + 1)
        }),
{
}

/// A CH585 alarm is compared with its target, unless two rounds of the counter
/// begin before it; then with the next beginning of a round, which is not more
/// than one round away.
pub proof fn far_alarm_waits_for_next_round(target: u64, now: u64)
    requires
        now < target,
    ensures
        ({
            let compare = ch585::spec_alarm_counter(target, now);
            &&& compare != target ==> {
                &&& compare % 0x1_0000_0000 == 0
                &&& now < compare <= now + 0x1_0000_0000
                &&& compare + 0x1_0000_0000 <= target
            }
            &&& compare == target ==> target / 0x1_0000_0000 <= now / 0x1_0000_0000 + 1
        }),
{
}

/// Programming an alarm writes a compare value for one count after the tick's
/// first, high word first on CH582 and the low word alone on CH585, where a target
/// with two beginnings of a round before it is replaced by the next beginning. Then
/// a match from before is forgotten, and the alarm waits to be confirmed with its
/// interrupt still off.
pub proof fn programmed_compare_is_the_alarm(
    time: &mut TimeDriver,
    at: u64,
    counter: u64,
    result: (AlarmStage, Vec<TimeAction>),
)
    requires
        call_ensures(
            TimeDriver::dispatch,
            (time, AlarmStage::Program { at }, counter),
            result,
        ),
    ensures
        ({
            let chip = old(time).chip;
            let actions = result.1@;
            &&& result.0 == (AlarmStage::Confirm { at })
            &&& chip == Chip::Ch582 ==> {
                &&& actions.len() == 4
                &&& actions[0] matches TimeAction::WriteWord { offset: first, value: high }
                    && actions[1] matches TimeAction::WriteWord { offset: second, value: low }
                    && first == 0x14 && second == 0x10 && is_alarm_count(
                    chip,
                    high * 0x1_0000_0000 + low,
                    at as int,
                )
            }
            &&& chip == Chip::Ch585 ==> {
                &&& actions.len() == 3
                &&& actions[0] matches TimeAction::WriteWord { offset, value } && offset == 0x10
                    && exists|target: int|
                    {
                        &&& #[trigger] is_alarm_count(chip, target, at as int)
                        &&& value == (if target / 0x1_0000_0000 <= counter as int / 0x1_0000_0000
                            + 1 {
                            target % 0x1_0000_0000
                        } else {
                            0
                        })
                    }
            }
            &&& actions[actions.len() - 2] == TimeAction::ClearMatch
            &&& actions[actions.len() - 1] == TimeAction::Pfic(PficAction::Unpend { irq: 12 })
            &&& final(time).deadlines() == old(time).deadlines()
        }),
{
    let chip = old(time).chip;
    alarm_is_one_count_after_its_tick(chip, at);
    let target = driver::alarm_target(chip, at);
    assert(is_alarm_count(chip, target, at as int));
}

/// An alarm that is looked at has its interrupt turned off first. If its tick has
/// come it is given up, a match is forgotten, and the wake-ups that are due come
/// next; otherwise it is programmed next.
pub proof fn begun_alarm_is_ahead(
    time: &mut TimeDriver,
    at: u64,
    counter: u64,
    result: (AlarmStage, Vec<TimeAction>),
)
    requires
        call_ensures(TimeDriver::dispatch, (time, AlarmStage::Begin { at }, counter), result),
    ensures
        ({
            let come = has_run(old(time).chip, counter as int, at as int);
            &&& come ==> result.0 == AlarmStage::Expire && result.1@ == seq![
                TimeAction::DisableAlarm,
                TimeAction::ClearMatch,
                TimeAction::Pfic(PficAction::Unpend { irq: 12 }),
            ]
            &&& !come ==> result.0 == (AlarmStage::Program { at }) && result.1@ == seq![
                TimeAction::DisableAlarm,
            ]
            &&& final(time).deadlines() == old(time).deadlines()
        }),
{
    assert(result.1@ =~= driver::begin_actions(
        at,
        driver::spec_counter_to_ticks(old(time).chip, counter) as u64,
    ));
}

/// A programmed alarm is armed, and its interrupt turned on, exactly when its tick
/// has not come meanwhile; otherwise the wake-ups that are due come next.
pub proof fn armed_alarm_is_ahead(
    time: &mut TimeDriver,
    at: u64,
    counter: u64,
    result: (AlarmStage, Vec<TimeAction>),
)
    requires
        call_ensures(TimeDriver::dispatch, (time, AlarmStage::Confirm { at }, counter), result),
    ensures
        ({
            let come = has_run(old(time).chip, counter as int, at as int);
            &&& come ==> result.0 == AlarmStage::Expire && result.1@.len() == 0
            &&& !come ==> result.0 == (AlarmStage::Armed { at }) && result.1@ == seq![
                TimeAction::EnableAlarm,
            ]
            &&& final(time).deadlines() == old(time).deadlines()
        }),
{
}

/// Removing what is due leaves exactly the wake-ups whose tick has not come, and
/// looks next at the earliest of them, or at the largest tick if none is left.
pub proof fn expiring_leaves_what_is_ahead(
    time: &mut TimeDriver,
    counter: u64,
    result: (AlarmStage, Vec<TimeAction>),
    tick: u64,
)
    requires
        call_ensures(TimeDriver::dispatch, (time, AlarmStage::Expire, counter), result),
    ensures
        result.1@.len() == 0,
        final(time).deadlines().count(tick) == (if has_run(
            old(time).chip,
            counter as int,
            tick as int,
        ) {
            0
        } else {
            old(time).deadlines().count(tick)
        }),
        result.0 matches AlarmStage::Begin { at } && (final(time).deadlines().contains(tick) ==> at
            <= tick) && (at == u64::MAX || final(time).deadlines().contains(at)),
{
}

/// After a wake-up was scheduled, one is pending that is not later than it; and
/// while the queue has room no other wake-up is lost, but for one later one that
/// the new one replaces.
pub proof fn scheduled_wake_up_is_pending(
    time: &mut TimeDriver,
    at: u64,
    waker: &core::task::Waker,
    changed: bool,
)
    requires
        call_ensures(TimeDriver::schedule_wake, (time, at, waker), changed),
    ensures
        exists|tick: u64| tick <= at && #[trigger] final(time).deadlines().contains(tick),
        changed ==> final(time).deadlines().contains(at),
        old(time).deadlines().len() < 64 ==> forall|tick: u64|
            tick <= at ==> #[trigger] final(time).deadlines().count(tick) >= old(
                time,
            ).deadlines().count(tick),
        !changed ==> final(time).deadlines() == old(time).deadlines(),
{
    if changed {
        assert(final(time).deadlines().contains(at));
    }
}

/// The tick that the driver shows is the number of whole microseconds that the
/// counter has run.
pub proof fn driver_shows_microseconds(time: TimeDriver, counter: u64, ticks: u64)
    requires
        call_ensures(TimeDriver::now, (&time, counter), ticks),
    ensures
        has_run(time.chip, counter as int, ticks as int),
        !has_run(time.chip, counter as int, ticks + 1),
{
}

/// On CH582 a reading counts exactly when both looks at the high word agree, and
/// then has these words. On CH585 every reading counts: it has this low word, and
/// the high word goes up by one, modulo its width, exactly when the low word went
/// down.
pub proof fn reading_has_its_words(
    time: &mut TimeDriver,
    before: u32,
    low: u32,
    after: u32,
    counter: Option<u64>,
)
    requires
        call_ensures(TimeDriver::read_counter, (time, before, low, after), counter),
    ensures
        old(time).chip == Chip::Ch582 ==> {
            &&& counter is Some <==> before == after
            &&& counter matches Some(value) ==> value as int / 0x1_0000_0000 == before
                && value as int % 0x1_0000_0000 == low
        },
        old(time).chip == Chip::Ch585 ==> {
            &&& counter matches Some(value) && value as int % 0x1_0000_0000 == low && value as int
                / 0x1_0000_0000 == (if low < old(time).epoch.last_low {
                (old(time).epoch.high + 1) % 0x1_0000_0000
            } else {
                old(time).epoch.high as int
            })
            &&& counter == Some(final(time).epoch.value() as u64)
            &&& final(time).epoch.last_low == low
        },
{
}

/// Starting the timer stops it, sets the counter to zero and the compare value to
/// the largest one, forgets a match, runs the timer, and lets its interrupt through
/// last, at the least urgent level. On CH585 the extension of the counter starts at
/// zero as well.
pub proof fn timer_starts_at_zero(time: &mut TimeDriver, actions: Vec<TimeAction>)
    requires
        call_ensures(TimeDriver::init, (time,), actions),
    ensures
        ({
            let words = if old(time).chip == Chip::Ch582 {
                4int
            } else {
                2
            };
            &&& actions@.len() == words + 6
            &&& actions@[0] == TimeAction::Stop
            &&& forall|k: int|
                1 <= k <= words ==> (#[trigger] actions@[k] matches TimeAction::WriteWord {
                    offset,
                    value,
                } && (value == 0 && (offset == 0x08 || offset == 0x0c) || value == u32::MAX && (
                offset == 0x10 || offset == 0x14)))
            &&& actions@[words / 2] == (TimeAction::WriteWord { offset: 0x08, value: 0 })
            &&& actions@[words] == (TimeAction::WriteWord { offset: 0x10, value: u32::MAX })
            &&& old(time).chip == Chip::Ch582 ==> actions@[1] == (TimeAction::WriteWord {
                offset: 0x0c,
                value: 0,
            }) && actions@[3] == (TimeAction::WriteWord { offset: 0x14, value: u32::MAX })
            &&& actions@[words + 1] == TimeAction::ClearMatch
            &&& actions@[words + 2] == TimeAction::Pfic(PficAction::Unpend { irq: 12 })
            &&& actions@[words + 3] == TimeAction::Start
            &&& actions@[words + 4] == TimeAction::Pfic(
                PficAction::SetPriority { irq: 12, bits: 240 },
            )
            &&& actions@[words + 5] == TimeAction::Pfic(PficAction::Enable { irq: 12 })
            &&& old(time).chip == Chip::Ch585 ==> final(time).epoch.value() == 0
            &&& final(time).deadlines() == old(time).deadlines()
        }),
{
}

/// The timer interrupt is turned off before its flag is cleared, and neither is
/// turned on again here.
pub proof fn timer_interrupt_is_quieted(time: TimeDriver, actions: Vec<TimeAction>)
    requires
        call_ensures(TimeDriver::on_interrupt, (&time,), actions),
    ensures
        actions@.len() == 2,
        actions@[0] == TimeAction::DisableAlarm,
        actions@[1] == TimeAction::ClearMatch,
{
}

/// A driver starts without wake-ups, and with a counter that was never read.
pub proof fn first_driver_is_empty(chip: Chip, driver: TimeDriver, at: u64)
    requires
        call_ensures(TimeDriver::new, (chip,), driver),
    ensures
        driver.chip == chip,
        !driver.deadlines().contains(at),
        driver.epoch.value() == 0,
{
}

/// Two equal high words and the low word between them give the count that has these
/// words; two different ones give none.
pub proof fn stable_reading_has_its_words(
    before: u32,
    low: u32,
    after: u32,
    counter: Option<u64>,
)
    requires
        call_ensures(ch582::stable_counter, (before, low, after), counter),
    ensures
        counter is Some <==> before == after,
        counter matches Some(count) ==> count / 0x1_0000_0000 == before && count % 0x1_0000_0000
            == low,
{
}

} // verus!
