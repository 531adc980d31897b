//! Alarms of the time driver.

use vstd::multiset::Multiset;
use vstd::prelude::*;

use crate::chip::Chip;
use crate::pfic::{PficAction, Priority};
use crate::time::ch582;
use crate::time::ch585;
use crate::time::ch585::Ch585CounterEpoch;
use crate::time::wakeups;
use crate::words;

verus! {

/// Offset of the counter from the SysTick base.
pub const SYSTICK_CNT_OFFSET: usize = 0x08;

/// Offset of the compare value from the SysTick base.
pub const SYSTICK_CMP_OFFSET: usize = 0x10;

/// The interrupt number of SysTick.
pub const SYSTICK_IRQ: u8 = 12;

/// One effect on the timer. A list of actions is performed from first to last.
#[derive(Clone, Copy, Debug, PartialEq, Eq, Structural)]
pub enum TimeAction {
    /// Stop the timer and its interrupt.
    Stop,
    /// Run the timer upwards from the system clock, without reload, with its
    /// interrupt off.
    Start,
    /// Turn the timer's interrupt off.
    DisableAlarm,
    /// Turn the timer's interrupt on.
    EnableAlarm,
    /// Clear the timer's match flag.
    ClearMatch,
    /// Write a word register of the timer.
    WriteWord { offset: usize, value: u32 },
    /// Ask the interrupt controller.
    Pfic(PficAction),
}

/// The number of whole ticks in `counts`.
pub open spec fn spec_counter_to_ticks(chip: Chip, counts: u64) -> int {
    match chip {
        Chip::Ch582 => counts as int / 60,
        Chip::Ch585 => counts * 5 / 312,
    }
}

/// The least count at which `ticks` ticks have passed, or the largest count.
pub open spec fn spec_ticks_to_counter_ceil(chip: Chip, ticks: u64) -> int {
    match chip {
        Chip::Ch582 => ch582::spec_ticks_to_counter_ceil(ticks),
        Chip::Ch585 => ch585::spec_ticks_to_counter_ceil(ticks),
    }
}

/// The count of an alarm at tick `at`: one after the tick is reached, so that
/// the alarm cannot be early, or the largest count.
pub open spec fn alarm_target(chip: Chip, at: u64) -> int {
    let counts = spec_ticks_to_counter_ceil(chip, at);
    if counts < u64::MAX {
        counts + 1
    } else {
        counts
    }
}

/// The value of the compare register for an alarm at tick `at` when the counter
/// shows `counter`.
pub open spec fn alarm_compare(chip: Chip, at: u64, counter: u64) -> int {
    match chip {
        Chip::Ch582 => alarm_target(chip, at),
        Chip::Ch585 => ch585::spec_alarm_counter(alarm_target(chip, at) as u64, counter),
    }
}

/// The writes of a timer register. The 64-bit registers take the high word
/// first; those of 32 bits have a low word only.
pub open spec fn register_writes(chip: Chip, offset: usize, value: u64) -> Seq<TimeAction> {
    let low = TimeAction::WriteWord { offset, value: (value as int % 0x1_0000_0000) as u32 };
    match chip {
        Chip::Ch582 => seq![
            TimeAction::WriteWord {
                offset: (offset + 4) as usize,
                value: (value as int / 0x1_0000_0000) as u32,
            },
            low,
        ],
        Chip::Ch585 => seq![low],
    }
}

/// Forgets a match of the timer: its own flag first, then the latched request.
pub open spec fn clear_pending() -> Seq<TimeAction> {
    seq![TimeAction::ClearMatch, TimeAction::Pfic(PficAction::Unpend { irq: SYSTICK_IRQ })]
}

/// The effects of starting the timer: the counter at zero, an alarm that is
/// never reached, and the interrupt at the least urgent level.
pub open spec fn init_actions(chip: Chip) -> Seq<TimeAction> {
    seq![TimeAction::Stop] + register_writes(chip, SYSTICK_CNT_OFFSET, 0) + register_writes(
        chip,
        SYSTICK_CMP_OFFSET,
        u64::MAX,
    ) + clear_pending() + seq![
        TimeAction::Start,
        TimeAction::Pfic(PficAction::SetPriority { irq: SYSTICK_IRQ, bits: 0xf0 }),
        TimeAction::Pfic(PficAction::Enable { irq: SYSTICK_IRQ }),
    ]
}

/// How far setting the alarm has come. Each step needs a fresh reading of the
/// counter.
#[derive(Clone, Copy, Debug, PartialEq, Eq, Structural)]
pub enum AlarmStage {
    /// The wake-ups that are due have to be removed.
    Expire,
    /// An alarm at this tick is wanted.
    Begin { at: u64 },
    /// The alarm lies ahead and its interrupt is off.
    Program { at: u64 },
    /// The alarm is programmed and its interrupt is off.
    Confirm { at: u64 },
    /// The alarm is set.
    Armed { at: u64 },
}

impl AlarmStage {
    /// The tick of the alarm that is being set.
    pub open spec fn tick(self) -> Option<u64> {
        match self {
            AlarmStage::Expire => None,
            AlarmStage::Begin { at } => Some(at),
            AlarmStage::Program { at } => Some(at),
            AlarmStage::Confirm { at } => Some(at),
            AlarmStage::Armed { at } => Some(at),
        }
    }
}

/// The stage after an alarm at `at` was looked at: an alarm that is not ahead
/// leads back to the wake-ups that are due.
pub open spec fn begun(at: u64, now: u64) -> AlarmStage {
    if at > now {
        AlarmStage::Program { at }
    } else {
        AlarmStage::Expire
    }
}

/// The effects of looking at an alarm at `at`: its interrupt is turned off, and
/// a match is forgotten if the alarm is not ahead.
pub open spec fn begin_actions(at: u64, now: u64) -> Seq<TimeAction> {
    if at > now {
        seq![TimeAction::DisableAlarm]
    } else {
        seq![TimeAction::DisableAlarm] + clear_pending()
    }
}

/// The effects of programming an alarm at `at`.
pub open spec fn program_actions(chip: Chip, at: u64, counter: u64) -> Seq<TimeAction> {
    register_writes(chip, SYSTICK_CMP_OFFSET, alarm_compare(chip, at, counter) as u64)
        + clear_pending()
}

/// The effects of one step.
pub open spec fn dispatch_actions(chip: Chip, stage: AlarmStage, counter: u64) -> Seq<TimeAction> {
    let now = spec_counter_to_ticks(chip, counter);
    match stage {
        AlarmStage::Begin { at } => begin_actions(at, now as u64),
        AlarmStage::Program { at } => program_actions(chip, at, counter),
        AlarmStage::Confirm { at } => if at > now {
            seq![TimeAction::EnableAlarm]
        } else {
            Seq::empty()
        },
        _ => Seq::empty(),
    }
}

/// Whether `after` is `before` without the deadlines up to `now`, and `next` the
/// least deadline that is left, or the largest tick.
pub open spec fn expired(before: Multiset<u64>, now: u64, after: Multiset<u64>, next: u64) -> bool {
    &&& forall|at: u64| #[trigger]
        after.count(at) == (if at > now {
            before.count(at)
        } else {
            0
        })
    &&& is_next(after, next)
}

/// Whether `next` is the least of the deadlines, or the largest tick if there is
/// none.
pub open spec fn is_next(pending: Multiset<u64>, next: u64) -> bool {
    &&& forall|at: u64| #[trigger] pending.contains(at) ==> next <= at
    &&& next == u64::MAX || pending.contains(next)
}

/// One step towards an armed alarm, with the pending deadlines before and after
/// it.
pub open spec fn alarm_step(
    chip: Chip,
    before: Multiset<u64>,
    stage: AlarmStage,
    counter: u64,
    after: Multiset<u64>,
    next: AlarmStage,
) -> bool {
    let now = spec_counter_to_ticks(chip, counter) as u64;
    match stage {
        AlarmStage::Expire => next matches AlarmStage::Begin { at } && expired(
            before,
            now,
            after,
            at,
        ),
        AlarmStage::Begin { at } => after == before && next == begun(at, now),
        AlarmStage::Program { at } => after == before && next == AlarmStage::Confirm { at },
        AlarmStage::Confirm { at } => after == before && next == (if at > now {
            AlarmStage::Armed { at }
        } else {
            AlarmStage::Expire
        }),
        AlarmStage::Armed { at } => after == before && next == stage,
    }
}

/// The number of whole ticks in `counts`.
pub fn counter_to_ticks(chip: Chip, counts: u64) -> (ticks: u64)
    ensures
        ticks == spec_counter_to_ticks(chip, counts),
{
    match chip {
        Chip::Ch582 => ch582::counter_to_ticks(counts),
        Chip::Ch585 => ch585::counter_to_ticks(counts),
    }
}

/// The least count at which `ticks` ticks have passed, or the largest count if
/// that count does not fit.
pub fn ticks_to_counter_ceil(chip: Chip, ticks: u64) -> (counts: u64)
    ensures
        counts == spec_ticks_to_counter_ceil(chip, ticks),
{
    match chip {
        Chip::Ch582 => ch582::ticks_to_counter_ceil(ticks),
        Chip::Ch585 => ch585::ticks_to_counter_ceil(ticks),
    }
}

/// Appends the writes of the timer register at `offset`.
pub fn write_counter_register(chip: Chip, offset: usize, value: u64, actions: &mut Vec<TimeAction>)
    requires
        offset == SYSTICK_CNT_OFFSET || offset == SYSTICK_CMP_OFFSET,
    ensures
        final(actions)@ == old(actions)@ + register_writes(chip, offset, value),
{
    if chip == Chip::Ch582 {
        actions.push(
            TimeAction::WriteWord { offset: offset + 4, value: words::high_word(value) },
        );
    }
    actions.push(TimeAction::WriteWord { offset, value: words::low_word(value) });
    assert(actions@ =~= old(actions)@ + register_writes(chip, offset, value));
}

/// Appends what forgets a match of the timer.
pub fn clear_systick_pending(actions: &mut Vec<TimeAction>)
    ensures
        final(actions)@ == old(actions)@ + clear_pending(),
{
    actions.push(TimeAction::ClearMatch);
    actions.push(TimeAction::Pfic(PficAction::Unpend { irq: SYSTICK_IRQ }));
    assert(actions@ =~= old(actions)@ + clear_pending());
}

/// The time driver: pending wake-ups, and the extension of a short counter.
pub struct TimeDriver {
    pub chip: Chip,
    pub queue: embassy_time_queue_utils::Queue,
    pub epoch: Ch585CounterEpoch,
}

impl TimeDriver {
    /// The deadlines of the pending wake-ups.
    pub open spec fn deadlines(self) -> Multiset<u64> {
        wakeups::deadlines(self.queue)
    }

    /// A driver without wake-ups.
    pub fn new(chip: Chip) -> (driver: TimeDriver)
        ensures
            driver.chip == chip,
            driver.deadlines() == Multiset::<u64>::empty(),
            driver.epoch == (Ch585CounterEpoch { last_low: 0, high: 0 }),
    {
        TimeDriver {
            chip,
            queue: embassy_time_queue_utils::Queue::new(),
            epoch: Ch585CounterEpoch { last_low: 0, high: 0 },
        }
    }

    /// Starts the timer from zero.
    pub fn init(&mut self) -> (actions: Vec<TimeAction>)
        ensures
            final(self).chip == old(self).chip,
            final(self).queue == old(self).queue,
            final(self).epoch == (if old(self).chip == Chip::Ch585 {
                Ch585CounterEpoch { last_low: 0, high: 0 }
            } else {
                old(self).epoch
            }),
            actions@ == init_actions(old(self).chip),
    {
        let mut actions: Vec<TimeAction> = Vec::new();
        actions.push(TimeAction::Stop);
        if self.chip == Chip::Ch585 {
            self.epoch = Ch585CounterEpoch { last_low: 0, high: 0 };
        }
        write_counter_register(self.chip, SYSTICK_CNT_OFFSET, 0, &mut actions);
        write_counter_register(self.chip, SYSTICK_CMP_OFFSET, u64::MAX, &mut actions);
        clear_systick_pending(&mut actions);
        actions.push(TimeAction::Start);
        actions.push(
            TimeAction::Pfic(
                PficAction::SetPriority { irq: SYSTICK_IRQ, bits: Priority::P15.bits() },
            ),
        );
        actions.push(TimeAction::Pfic(PficAction::Enable { irq: SYSTICK_IRQ }));
        assert(actions@ =~= init_actions(old(self).chip));
        actions
    }

    /// The 64-bit counter from its register words: the high word read before and
    /// after the low word. `None` asks for another reading. The high words are
    /// not looked at on a chip whose counter has none.
    pub fn read_counter(&mut self, high_before: u32, low: u32, high_after: u32) -> (counter: Option<
        u64,
    >)
        ensures
            final(self).chip == old(self).chip,
            final(self).queue == old(self).queue,
            old(self).chip == Chip::Ch582 ==> {
                &&& final(self).epoch == old(self).epoch
                &&& counter == (if high_before == high_after {
                    Some((high_before * 0x1_0000_0000 + low) as u64)
                } else {
                    None
                })
            },
            old(self).chip == Chip::Ch585 ==> {
                &&& final(self).epoch == old(self).epoch.observed(low)
                &&& counter == Some(final(self).epoch.value() as u64)
            },
    {
        match self.chip {
            Chip::Ch582 => ch582::stable_counter(high_before, low, high_after),
            Chip::Ch585 => Some(self.epoch.observe(low)),
        }
    }

    /// The present tick, when the counter shows `counter`.
    pub fn now(&self, counter: u64) -> (ticks: u64)
        ensures
            ticks == spec_counter_to_ticks(self.chip, counter),
    {
        counter_to_ticks(self.chip, counter)
    }

    /// Removes the wake-ups that are due at tick `now` and wakes their tasks;
    /// the result is the tick of the next alarm.
    pub fn next_expiration(&mut self, now: u64) -> (next: u64)
        ensures
            final(self).chip == old(self).chip,
            final(self).epoch == old(self).epoch,
            expired(old(self).deadlines(), now, final(self).deadlines(), next),
    {
        self.queue.next_expiration(now)
    }

    /// Adds a wake-up at tick `at`. The result tells whether the alarm has to be
    /// set anew.
    pub fn schedule_wake(&mut self, at: u64, waker: &core::task::Waker) -> (changed: bool)
        ensures
            final(self).chip == old(self).chip,
            final(self).epoch == old(self).epoch,
            !changed ==> final(self).deadlines() == old(self).deadlines() && exists|earlier: u64|
                earlier <= at && #[trigger] old(self).deadlines().contains(earlier),
            changed ==> {
                ||| final(self).deadlines() == old(self).deadlines().insert(at)
                ||| exists|replaced: u64|
                    {
                        &&& #[trigger] old(self).deadlines().contains(replaced)
                        &&& final(self).deadlines() == old(self).deadlines().remove(
                            replaced,
                        ).insert(at)
                        &&& replaced <= at ==> old(self).deadlines().len() == wakeups::QUEUE_CAPACITY
                    }
            },
            final(self).deadlines().len() <= wakeups::QUEUE_CAPACITY,
    {
        self.queue.schedule_wake(at, waker)
    }

    /// The alarm at tick `at` is given up at tick `now`, or found to lie ahead.
    /// Either way the interrupt is off until the alarm is confirmed.
    fn begin_alarm(&self, at: u64, now: u64) -> (result: (AlarmStage, Vec<TimeAction>))
        ensures
            result.0 == begun(at, now),
            result.1@ == begin_actions(at, now),
    {
        let mut actions: Vec<TimeAction> = Vec::new();
        actions.push(TimeAction::DisableAlarm);
        assert(actions@ =~= seq![TimeAction::DisableAlarm]);
        if at <= now {
            clear_systick_pending(&mut actions);
            return (AlarmStage::Expire, actions);
        }
        (AlarmStage::Program { at }, actions)
    }

    /// Programs the alarm at tick `at`, when the counter shows `counter`.
    fn program_alarm(&self, at: u64, counter: u64) -> (actions: Vec<TimeAction>)
        ensures
            actions@ == program_actions(self.chip, at, counter),
    {
        let target: u64 = ticks_to_counter_ceil(self.chip, at).saturating_add(1);
        let compare: u64 = match self.chip {
            Chip::Ch582 => target,
            Chip::Ch585 => ch585::ch585_alarm_counter(target, counter),
        };
        let mut actions: Vec<TimeAction> = Vec::new();
        write_counter_register(self.chip, SYSTICK_CMP_OFFSET, compare, &mut actions);
        clear_systick_pending(&mut actions);
        assert(actions@ =~= program_actions(self.chip, at, counter));
        actions
    }

    /// Takes one step towards an armed alarm; the counter was just read and
    /// shows `counter`. Starting from `Expire`, the steps are repeated until the
    /// stage is `Armed`.
    pub fn dispatch(&mut self, stage: AlarmStage, counter: u64) -> (result: (
        AlarmStage,
        Vec<TimeAction>,
    ))
        ensures
            final(self).chip == old(self).chip,
            final(self).epoch == old(self).epoch,
            alarm_step(
                old(self).chip,
                old(self).deadlines(),
                stage,
                counter,
                final(self).deadlines(),
                result.0,
            ),
            result.1@ == dispatch_actions(old(self).chip, stage, counter),
    {
        let now: u64 = self.now(counter);
        match stage {
            AlarmStage::Expire => {
                let at: u64 = self.next_expiration(now);
                (AlarmStage::Begin { at }, Vec::new())
            },
            AlarmStage::Begin { at } => self.begin_alarm(at, now),
            AlarmStage::Program { at } => {
                (AlarmStage::Confirm { at }, self.program_alarm(at, counter))
            },
            AlarmStage::Confirm { at } => {
                let mut actions: Vec<TimeAction> = Vec::new();
                if at <= now {
                    return (AlarmStage::Expire, actions);
                }
                actions.push(TimeAction::EnableAlarm);
                assert(actions@ =~= seq![TimeAction::EnableAlarm]);
                (AlarmStage::Armed { at }, actions)
            },
            AlarmStage::Armed { at } => (stage, Vec::new()),
        }
    }

    /// What the timer interrupt does before due wake-ups are removed: the
    /// interrupt is turned off and its match flag cleared.
    pub fn on_interrupt(&self) -> (actions: Vec<TimeAction>)
        ensures
            actions@ == seq![TimeAction::DisableAlarm, TimeAction::ClearMatch],
    {
        let mut actions: Vec<TimeAction> = Vec::new();
        actions.push(TimeAction::DisableAlarm);
        actions.push(TimeAction::ClearMatch);
        assert(actions@ =~= seq![TimeAction::DisableAlarm, TimeAction::ClearMatch]);
        actions
    }
}

/// A count belongs to tick `ticks` or a later one exactly when it is not below
/// the count of that tick: rounding up and rounding down agree.
pub proof fn conversions_agree(chip: Chip, ticks: u64, counts: u64)
    requires
        spec_ticks_to_counter_ceil(chip, ticks) < u64::MAX,
    ensures
        spec_counter_to_ticks(chip, counts) >= ticks <==> counts >= spec_ticks_to_counter_ceil(
            chip,
            ticks,
        ),
{
}

/// No tick is lost: converting a tick to its count and back gives the tick, so
/// nothing drifts however far the clock has run.
pub proof fn conversion_returns(chip: Chip, ticks: u64)
    requires
        spec_ticks_to_counter_ceil(chip, ticks) < u64::MAX,
    ensures
        spec_counter_to_ticks(chip, spec_ticks_to_counter_ceil(chip, ticks) as u64) == ticks,
{
}

/// Time does not run backwards: a later count is not an earlier tick, and a
/// later tick is not an earlier count.
pub proof fn conversions_are_monotone(chip: Chip, a: u64, b: u64)
    requires
        a <= b,
    ensures
        spec_counter_to_ticks(chip, a) <= spec_counter_to_ticks(chip, b),
        spec_ticks_to_counter_ceil(chip, a) <= spec_ticks_to_counter_ceil(chip, b),
        alarm_target(chip, a) <= alarm_target(chip, b),
{
}

/// An alarm is not early: when the counter has reached the alarm's target, its
/// tick has come.
pub proof fn alarm_is_not_early(chip: Chip, at: u64, counter: u64)
    requires
        spec_ticks_to_counter_ceil(chip, at) < u64::MAX,
        counter >= alarm_target(chip, at),
    ensures
        spec_counter_to_ticks(chip, counter) >= at,
{
    conversions_agree(chip, at, counter);
}

/// An alarm at a tick that lies ahead has a target that lies ahead, whatever the
/// tick, unless the counter shows its largest value.
pub proof fn target_lies_ahead(chip: Chip, at: u64, counter: u64)
    requires
        spec_counter_to_ticks(chip, counter) < at,
        counter < u64::MAX,
    ensures
        counter < alarm_target(chip, at),
{
    if spec_ticks_to_counter_ceil(chip, at) < u64::MAX {
        conversions_agree(chip, at, counter);
    }
}

/// An alarm whose target lies ahead is compared with a count that lies ahead, and
/// that is not after the target: the timer interrupts in time. The alarm of an
/// empty queue, which is at the largest tick, is no exception.
pub proof fn alarm_comes_in_time(chip: Chip, at: u64, counter: u64)
    requires
        counter < alarm_target(chip, at),
    ensures
        counter < alarm_compare(chip, at, counter) <= alarm_target(chip, at),
{
}

/// The alarm of the next expiration serves every wake-up that is left: its
/// target is not after the target of any of them.
pub proof fn next_alarm_serves_all(driver: TimeDriver, next: u64, at: u64)
    requires
        is_next(driver.deadlines(), next),
        driver.deadlines().contains(at),
    ensures
        alarm_target(driver.chip, next) <= alarm_target(driver.chip, at),
{
    conversions_are_monotone(driver.chip, next, at);
}

/// Whether `stages` and `pending` are the course of setting an alarm from the
/// start, with the counter readings `counters`.
pub open spec fn alarm_course(
    chip: Chip,
    pending: Seq<Multiset<u64>>,
    stages: Seq<AlarmStage>,
    counters: Seq<u64>,
) -> bool {
    &&& stages.len() == pending.len() == counters.len() + 1
    &&& stages[0] == AlarmStage::Expire
    &&& forall|k: int|
        0 <= k < counters.len() ==> #[trigger] alarm_step(
            chip,
            pending[k],
            stages[k],
            counters[k],
            pending[k + 1],
            stages[k + 1],
        )
    &&& forall|i: int, j: int| 0 <= i <= j < counters.len() ==> counters[i] <= counters[j]
}

proof fn lemma_alarm_course(
    chip: Chip,
    pending: Seq<Multiset<u64>>,
    stages: Seq<AlarmStage>,
    counters: Seq<u64>,
    k: int,
)
    requires
        alarm_course(chip, pending, stages, counters),
        0 <= k <= counters.len(),
    ensures
        stages[k].tick() matches Some(at) ==> is_next(pending[k], at),
        k == 0 ==> stages[k] is Expire,
        stages[k] matches AlarmStage::Armed { at } ==> exists|j: int|
            0 <= j < k && spec_counter_to_ticks(chip, #[trigger] counters[j]) < at && stages[j]
                == (AlarmStage::Confirm { at }) && pending[j] == pending[k],
        forall|tick: u64|
            (k > 0 ==> tick > spec_counter_to_ticks(chip, counters[k - 1])) ==> #[trigger]
                pending[k].count(tick) == pending[0].count(tick),
    decreases k,
{
    if k > 0 {
        lemma_alarm_course(chip, pending, stages, counters, k - 1);
        assert(alarm_step(
            chip,
            pending[k - 1],
            stages[k - 1],
            counters[k - 1],
            pending[k - 1 + 1],
            stages[k - 1 + 1],
        ));
        if k > 1 {
            conversions_are_monotone(chip, counters[k - 2], counters[k - 1]);
        }
        assert forall|tick: u64|
            tick > spec_counter_to_ticks(chip, counters[k - 1]) implies #[trigger] pending[k].count(
            tick,
        ) == pending[0].count(tick) by {
            assert(pending[k - 1].count(tick) == pending[0].count(tick));
        }
    }
}

/// When the alarm is armed after the last of the counter readings, exactly the
/// wake-ups that were due by then have been removed, none that still lies ahead
/// is lost, and the alarm is at the next one, which lies ahead.
pub proof fn armed_alarm_is_next(
    chip: Chip,
    pending: Seq<Multiset<u64>>,
    stages: Seq<AlarmStage>,
    counters: Seq<u64>,
    at: u64,
)
    requires
        alarm_course(chip, pending, stages, counters),
        counters.len() > 0,
        stages.last() == (AlarmStage::Armed { at }),
        stages[counters.len() - 1] is Confirm,
    ensures
        is_next(pending.last(), at),
        spec_counter_to_ticks(chip, counters.last()) < at,
        forall|tick: u64| #[trigger]
            pending.last().count(tick) == (if tick > spec_counter_to_ticks(chip, counters.last()) {
                pending[0].count(tick)
            } else {
                0
            }),
{
    let n = counters.len() as int;
    lemma_alarm_course(chip, pending, stages, counters, n);
    assert(alarm_step(
        chip,
        pending[n - 1],
        stages[n - 1],
        counters[n - 1],
        pending[n - 1 + 1],
        stages[n - 1 + 1],
    ));
    assert forall|tick: u64| #[trigger]
        pending.last().count(tick) == (if tick > spec_counter_to_ticks(chip, counters.last()) {
            pending[0].count(tick)
        } else {
            0
        }) by {
        if tick <= spec_counter_to_ticks(chip, counters.last()) {
            assert(!pending.last().contains(tick));
        }
    }
}

/// While the compare register is written the interrupt is off: among the steps
/// of a course, the step before the register is programmed turned it off, and
/// only the step after it turns it on.
pub proof fn alarm_is_programmed_quietly(chip: Chip, at: u64, counter: u64, now: u64)
    requires
        at > now,
    ensures
        begun(at, now) == (AlarmStage::Program { at }),
        begin_actions(at, now).last() == TimeAction::DisableAlarm,
        forall|k: int|
            0 <= k < program_actions(chip, at, counter).len() ==> #[trigger] program_actions(
                chip,
                at,
                counter,
            )[k] != TimeAction::EnableAlarm,
{
}

/// An alarm whose target lies ahead interrupts, on a chip with a short counter,
/// within one round of the counter and not after its target: there is such a
/// count at which the low word meets the compare register. So the counter is
/// observed before it can go around unnoticed, also when no wake-up is pending
/// and the alarm is at the largest tick.
pub proof fn alarm_interrupts_within_round(at: u64, counter: u64)
    requires
        counter < alarm_target(Chip::Ch585, at),
    ensures
        exists|count: int|
            {
                &&& counter < count <= alarm_target(Chip::Ch585, at)
                &&& count <= counter + 0x1_0000_0000
                &&& #[trigger] (count % 0x1_0000_0000) == alarm_compare(Chip::Ch585, at, counter)
                    % 0x1_0000_0000
            },
{
    alarm_comes_in_time(Chip::Ch585, at, counter);
    let compare = alarm_compare(Chip::Ch585, at, counter);
    let count = if compare <= counter + 0x1_0000_0000 {
        compare
    } else {
        compare - 0x1_0000_0000
    };
    assert(count % 0x1_0000_0000 == compare % 0x1_0000_0000);
    assert(counter < count <= counter + 0x1_0000_0000);
}

/// The words that are written to a 64-bit timer register are those of the value.
pub proof fn register_words_rejoin(offset: usize, value: u64)
    ensures
        register_writes(Chip::Ch582, offset, value).len() == 2,
        register_writes(Chip::Ch582, offset, value)[0] matches TimeAction::WriteWord {
            value: high,
            ..
        } && register_writes(Chip::Ch582, offset, value)[1] matches TimeAction::WriteWord {
            value: low,
            ..
        } && high * 0x1_0000_0000 + low == value,
{
}

} // verus!
