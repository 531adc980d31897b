use std::sync::atomic::{AtomicUsize, Ordering};
use std::sync::Arc;
use std::task::{Wake, Waker};

use embassy_ch58x::chip::Chip;
use embassy_ch58x::pfic::PficAction;
use embassy_ch58x::time::ch585::{ch585_alarm_counter, Ch585CounterEpoch};
use embassy_ch58x::time::driver::{
    counter_to_ticks, ticks_to_counter_ceil, AlarmStage, TimeAction, TimeDriver,
};

struct Task(AtomicUsize);

impl Wake for Task {
    fn wake(self: Arc<Self>) {
        self.0.fetch_add(1, Ordering::SeqCst);
    }
}

fn task() -> (Arc<Task>, Waker) {
    let task = Arc::new(Task(AtomicUsize::new(0)));
    (task.clone(), Waker::from(task))
}

fn word(offset: usize, value: u32) -> TimeAction {
    TimeAction::WriteWord { offset, value }
}

const UNPEND: TimeAction = TimeAction::Pfic(PficAction::Unpend { irq: 12 });

#[test]
fn ticks_are_exact() {
    assert_eq!(counter_to_ticks(Chip::Ch582, 60_000_000), 1_000_000);
    assert_eq!(ticks_to_counter_ceil(Chip::Ch582, 1_000_000), 60_000_000);
    assert_eq!(counter_to_ticks(Chip::Ch582, 59), 0);
    assert_eq!(counter_to_ticks(Chip::Ch585, 62_400_000), 1_000_000);
    assert_eq!(ticks_to_counter_ceil(Chip::Ch585, 1_000_000), 62_400_000);
    assert_eq!(ticks_to_counter_ceil(Chip::Ch585, 30_000), 1_872_000);
    assert_eq!(ticks_to_counter_ceil(Chip::Ch585, 1), 63);
    assert_eq!(counter_to_ticks(Chip::Ch585, 62), 0);
    assert_eq!(counter_to_ticks(Chip::Ch585, 63), 1);
}

#[test]
fn far_ticks_saturate() {
    assert_eq!(ticks_to_counter_ceil(Chip::Ch582, u64::MAX), u64::MAX);
    assert_eq!(ticks_to_counter_ceil(Chip::Ch585, u64::MAX), u64::MAX);
    assert_eq!(counter_to_ticks(Chip::Ch585, u64::MAX), 295_620_898_617_140_250);
}

#[test]
fn epoch_counts_rounds() {
    let mut epoch = Ch585CounterEpoch { last_low: 0xffff_fffe, high: 7 };
    assert_eq!(epoch.observe(0xffff_ffff), 0x0000_0007_ffff_ffff);
    assert_eq!(epoch.observe(0), 0x0000_0008_0000_0000);
    assert_eq!(epoch.observe(1), 0x0000_0008_0000_0001);
    epoch.high = u32::MAX;
    assert_eq!(epoch.observe(0), 0);
}

#[test]
fn far_alarms_stop_at_the_next_round() {
    assert_eq!(
        ch585_alarm_counter(0x0000_0002_0000_1234, 0x0000_0001_ffff_0000),
        0x0000_0002_0000_1234
    );
    assert_eq!(
        ch585_alarm_counter(0x0000_0003_0000_1234, 0x0000_0001_ffff_0000),
        0x0000_0002_0000_0000
    );
    assert_eq!(
        ch585_alarm_counter(0x0000_0001_ffff_1234, 0x0000_0001_ffff_0000),
        0x0000_0001_ffff_1234
    );
    assert_eq!(ch585_alarm_counter(u64::MAX, u64::MAX), u64::MAX);
}

#[test]
fn timer_starts_from_zero() {
    let mut driver = TimeDriver::new(Chip::Ch582);
    assert_eq!(
        driver.init(),
        vec![
            TimeAction::Stop,
            word(0x0c, 0),
            word(0x08, 0),
            word(0x14, u32::MAX),
            word(0x10, u32::MAX),
            TimeAction::ClearMatch,
            UNPEND,
            TimeAction::Start,
            TimeAction::Pfic(PficAction::SetPriority { irq: 12, bits: 0xf0 }),
            TimeAction::Pfic(PficAction::Enable { irq: 12 }),
        ]
    );
    let mut driver = TimeDriver::new(Chip::Ch585);
    driver.epoch = Ch585CounterEpoch { last_low: 5, high: 6 };
    let actions = driver.init();
    assert_eq!(actions[1..3], [word(0x08, 0), word(0x10, u32::MAX)]);
    assert_eq!(driver.epoch, Ch585CounterEpoch { last_low: 0, high: 0 });
}

#[test]
fn counter_is_read_without_tearing() {
    let mut driver = TimeDriver::new(Chip::Ch582);
    assert_eq!(driver.read_counter(1, 0xffff_ffff, 2), None);
    assert_eq!(driver.read_counter(2, 3, 2), Some(0x2_0000_0003));
    let mut driver = TimeDriver::new(Chip::Ch585);
    assert_eq!(driver.read_counter(9, 10, 8), Some(10));
    assert_eq!(driver.read_counter(9, 4, 8), Some(0x1_0000_0004));
}

fn run(driver: &mut TimeDriver, counter: u64) -> (u64, Vec<TimeAction>) {
    let mut stage = AlarmStage::Expire;
    let mut actions = Vec::new();
    loop {
        if let AlarmStage::Armed { at } = stage {
            return (at, actions);
        }
        let (next, step) = driver.dispatch(stage, counter);
        stage = next;
        actions.extend(step);
    }
}

#[test]
fn alarm_is_set_for_the_next_wake_up() {
    let mut driver = TimeDriver::new(Chip::Ch582);
    let (first, first_waker) = task();
    let (second, second_waker) = task();
    assert!(driver.schedule_wake(100, &first_waker));
    assert!(driver.schedule_wake(50, &second_waker));
    assert!(!driver.schedule_wake(60, &second_waker));
    assert!(driver.schedule_wake(40, &second_waker));
    let (at, actions) = run(&mut driver, 600);
    assert_eq!(at, 40);
    assert_eq!(
        actions,
        vec![
            TimeAction::DisableAlarm,
            word(0x14, 0),
            word(0x10, 2401),
            TimeAction::ClearMatch,
            UNPEND,
            TimeAction::EnableAlarm,
        ]
    );
    let (at, _) = run(&mut driver, 2401);
    assert_eq!(at, 100);
    assert_eq!(first.0.load(Ordering::SeqCst), 0);
    assert_eq!(second.0.load(Ordering::SeqCst), 1);
    let (at, _) = run(&mut driver, 6001);
    assert_eq!(at, u64::MAX);
    assert_eq!(first.0.load(Ordering::SeqCst), 1);
}

#[test]
fn passed_alarm_is_given_up() {
    let mut driver = TimeDriver::new(Chip::Ch585);
    let (stage, actions) = driver.dispatch(AlarmStage::Begin { at: 1 }, 63);
    assert_eq!(stage, AlarmStage::Expire);
    assert_eq!(actions, vec![TimeAction::DisableAlarm, TimeAction::ClearMatch, UNPEND]);
    let (stage, actions) = driver.dispatch(AlarmStage::Confirm { at: 1 }, 63);
    assert_eq!(stage, AlarmStage::Expire);
    assert!(actions.is_empty());
    let (stage, actions) = driver.dispatch(AlarmStage::Program { at: 1 }, 0);
    assert_eq!(stage, AlarmStage::Confirm { at: 1 });
    assert_eq!(actions, vec![word(0x10, 64), TimeAction::ClearMatch, UNPEND]);
    let armed = AlarmStage::Armed { at: 9 };
    assert_eq!(driver.dispatch(armed, 0), (armed, vec![]));
    assert_eq!(driver.on_interrupt(), vec![TimeAction::DisableAlarm, TimeAction::ClearMatch]);
    assert_eq!(driver.now(63), 1);
}

#[test]
fn idle_alarm_still_follows_the_counter() {
    let mut driver = TimeDriver::new(Chip::Ch585);
    let (at, actions) = run(&mut driver, 0x3_0000_0005);
    assert_eq!(at, u64::MAX);
    assert_eq!(actions[1], word(0x10, 0));
    let (at, actions) = run(&mut driver, 0xffff_fffe_8000_0000);
    assert_eq!(at, u64::MAX);
    assert_eq!(actions[1], word(0x10, u32::MAX));
}

#[test]
fn full_queue_wakes_a_task_early() {
    let mut driver = TimeDriver::new(Chip::Ch582);
    let tasks: Vec<_> = (0..65).map(|_| task()).collect();
    for (index, (_, waker)) in tasks.iter().enumerate() {
        assert!(driver.schedule_wake(1000 + index as u64, waker));
    }
    let woken: usize = tasks.iter().map(|(task, _)| task.0.load(Ordering::SeqCst)).sum();
    assert_eq!(woken, 1);
    assert_eq!(driver.next_expiration(0), 1000);
}
