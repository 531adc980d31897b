//! The queue of pending wake-ups.

use vstd::multiset::Multiset;
use vstd::prelude::*;

verus! {

/// How many wake-ups the queue holds: what the feature `generic-queue-64` of the
/// crate `embassy-time-queue-utils` gives it.
pub const QUEUE_CAPACITY: usize = 64;

/// `core::task::Waker`: the handle that wakes a task.
#[verifier::external_type_specification]
#[verifier::external_body]
pub struct ExWaker(core::task::Waker);

/// `embassy_time_queue_utils::Queue`: wake-ups with their deadlines.
#[verifier::external_type_specification]
#[verifier::external_body]
pub struct ExQueue(embassy_time_queue_utils::Queue);

/// The deadlines of the wake-ups that a queue holds.
pub uninterp spec fn deadlines(timers: embassy_time_queue_utils::Queue) -> Multiset<u64>;

/// `embassy_time_queue_utils::Queue::new`.
///
/// Claimed: a new queue holds no wake-up.
pub assume_specification[ embassy_time_queue_utils::Queue::new ]() -> (timers:
    embassy_time_queue_utils::Queue)
    ensures
        deadlines(timers) == Multiset::<u64>::empty(),
;

/// `embassy_time_queue_utils::Queue::next_expiration`.
///
/// Claimed: the wake-ups with a deadline up to `now` leave the queue and the
/// others stay; the result is the least deadline that stays, or the largest tick
/// if none does. The call wakes the tasks of the wake-ups that leave; which
/// tasks these are is not part of the claim.
pub assume_specification[ embassy_time_queue_utils::Queue::next_expiration ](
    timers: &mut embassy_time_queue_utils::Queue,
    now: u64,
) -> (next: u64)
    ensures
        forall|at: u64| #[trigger]
            deadlines(*final(timers)).count(at) == (if at > now {
                deadlines(*old(timers)).count(at)
            } else {
                0
            }),
        forall|at: u64| #[trigger] deadlines(*final(timers)).contains(at) ==> next <= at,
        next == u64::MAX || deadlines(*final(timers)).contains(next),
;

/// `embassy_time_queue_utils::Queue::schedule_wake`.
///
/// Claimed: the result tells whether the queue changed. It does not change if
/// the task has a wake-up with a deadline up to `at` already. Otherwise a
/// wake-up at `at` is added, in place of a later one of the same task if there
/// is one, and in place of any one, whose task is woken, if the queue is full.
/// Which wake-ups belong to the task is not part of the claim.
pub assume_specification[ embassy_time_queue_utils::Queue::schedule_wake ](
    timers: &mut embassy_time_queue_utils::Queue,
    at: u64,
    waker: &core::task::Waker,
) -> (changed: bool)
    ensures
        !changed ==> deadlines(*final(timers)) == deadlines(*old(timers)) && exists|earlier: u64|
            earlier <= at && #[trigger] deadlines(*old(timers)).contains(earlier),
        changed ==> {
            ||| deadlines(*final(timers)) == deadlines(*old(timers)).insert(at)
            ||| exists|replaced: u64|
                {
                    &&& #[trigger] deadlines(*old(timers)).contains(replaced)
                    &&& deadlines(*final(timers)) == deadlines(*old(timers)).remove(replaced).insert(
                        at,
                    )
                    &&& replaced <= at ==> deadlines(*old(timers)).len() == QUEUE_CAPACITY
                }
        },
        deadlines(*final(timers)).len() <= QUEUE_CAPACITY,
;

} // verus!
