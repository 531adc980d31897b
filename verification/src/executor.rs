//! When the thread executor polls and when it sleeps.
//!
//! A wake-up sets a flag and the event latch of the interrupt controller. The
//! flag is looked at before the executor sleeps; the latch ends a sleep that
//! begins after that look.

use vstd::prelude::*;

verus! {

/// The bit of the system control register that sets the event latch.
pub const SCTLR_SETEVENT: u32 = 0x20;

/// The bit of the system control register that makes the wait instruction wait
/// for events.
pub const SCTLR_WFITOWFE: u32 = 0x08;

/// What the executor does after it has polled its tasks.
#[derive(Clone, Copy, Debug, PartialEq, Eq, Structural)]
pub enum Idle {
    /// Poll again.
    Poll,
    /// Wait for an event, then poll.
    Sleep,
}

/// Whether work came up since the executor last looked.
#[derive(Clone, Copy, Debug, PartialEq, Eq, Structural)]
pub struct Executor {
    pub work_pending: bool,
}

/// The system control register with event sleep on.
pub fn enable_event_sleep(sctlr: u32) -> (result: u32)
    ensures
        result == sctlr | SCTLR_WFITOWFE,
{
    sctlr | SCTLR_WFITOWFE
}

impl Executor {
    /// The executor after a task was woken.
    pub open spec fn woken(self) -> Executor {
        Executor { work_pending: true }
    }

    /// The system control register that a wake-up writes; `sctlr` is the present
    /// one.
    pub open spec fn wake_control(sctlr: u32) -> u32 {
        sctlr | SCTLR_SETEVENT
    }

    /// The executor after a look at the flag, which takes it.
    pub open spec fn looked(self) -> Executor {
        Executor { work_pending: false }
    }

    /// What a look at the flag decides.
    pub open spec fn idle(self) -> Idle {
        if self.work_pending {
            Idle::Poll
        } else {
            Idle::Sleep
        }
    }

    /// An executor, and the value to write to the system control register, of
    /// which `sctlr` is the present value. The flag outlives executors: what is
    /// pending stays pending.
    pub fn new(work_pending: bool, sctlr: u32) -> (result: (Executor, u32))
        ensures
            result.0 == (Executor { work_pending }),
            result.1 == sctlr | SCTLR_WFITOWFE,
    {
        (Executor { work_pending }, enable_event_sleep(sctlr))
    }

    /// A task was woken: the value to write to the system control register, of
    /// which `sctlr` is the present value. It sets the event latch and keeps the
    /// modes.
    pub fn pender(&mut self, sctlr: u32) -> (result: u32)
        ensures
            *final(self) == old(self).woken(),
            result == Executor::wake_control(sctlr),
    {
        self.work_pending = true;
        sctlr | SCTLR_SETEVENT
    }

    /// Decides what to do after the tasks were polled.
    pub fn after_poll(&mut self) -> (idle: Idle)
        ensures
            *final(self) == old(self).looked(),
            idle == old(self).idle(),
    {
        let work_pending = self.work_pending;
        self.work_pending = false;
        if work_pending {
            Idle::Poll
        } else {
            Idle::Sleep
        }
    }
}

/// What the thread of an executor does now.
#[derive(Clone, Copy, Debug, PartialEq, Eq, Structural)]
pub enum RunStage {
    /// Let the caller spawn its tasks.
    Spawn,
    /// Poll the tasks.
    Poll,
    /// Look at the flag.
    Look,
    /// Wait for an event.
    Sleep,
}

impl Executor {
    /// What the thread does after `stage`.
    pub open spec fn run_next(self, stage: RunStage) -> RunStage {
        match stage {
            RunStage::Spawn => RunStage::Poll,
            RunStage::Poll => RunStage::Look,
            RunStage::Look => match self.idle() {
                Idle::Poll => RunStage::Poll,
                Idle::Sleep => RunStage::Sleep,
            },
            RunStage::Sleep => RunStage::Poll,
        }
    }

    /// The executor after `stage`.
    pub open spec fn after_stage(self, stage: RunStage) -> Executor {
        if stage == RunStage::Look {
            self.looked()
        } else {
            self
        }
    }

    /// Decides what the thread does after `stage`. It starts with `Spawn` and goes
    /// on for ever.
    pub fn run(&mut self, stage: RunStage) -> (next: RunStage)
        ensures
            next == old(self).run_next(stage),
            *final(self) == old(self).after_stage(stage),
    {
        match stage {
            RunStage::Spawn => RunStage::Poll,
            RunStage::Poll => RunStage::Look,
            RunStage::Look => match self.after_poll() {
                Idle::Poll => RunStage::Poll,
                Idle::Sleep => RunStage::Sleep,
            },
            RunStage::Sleep => RunStage::Poll,
        }
    }
}

/// The executor and its event latch.
pub struct Machine {
    pub executor: Executor,
    /// Whether the event latch is set.
    pub latch: bool,
    /// What the thread does.
    pub stage: RunStage,
    /// Whether a wake-up came since the last poll of the tasks began.
    pub unserved: bool,
}

/// A step of the executor or of an interrupt.
pub enum MachineStep {
    /// A task was woken while the system control register showed this value.
    Wake(u32),
    /// The thread did what its stage says and goes on. A wait consumes the latch.
    Advance,
}

impl Machine {
    /// Whether the step can happen here. The wait instruction returns only when
    /// the latch is set.
    pub open spec fn allows(self, step: MachineStep) -> bool {
        match step {
            MachineStep::Wake(_) => true,
            MachineStep::Advance => self.stage == RunStage::Sleep ==> self.latch,
        }
    }

    /// The machine after a step. Writing the system control register sets the
    /// latch if the bit for that is set in the value written.
    pub open spec fn step(self, step: MachineStep) -> Machine {
        match step {
            MachineStep::Wake(sctlr) => Machine {
                executor: self.executor.woken(),
                latch: self.latch || Executor::wake_control(sctlr) & SCTLR_SETEVENT != 0,
                unserved: true,
                ..self
            },
            MachineStep::Advance => Machine {
                executor: self.executor.after_stage(self.stage),
                latch: self.latch && self.stage != RunStage::Sleep,
                stage: self.executor.run_next(self.stage),
                unserved: self.unserved && self.executor.run_next(self.stage) != RunStage::Poll,
            },
        }
    }

    /// The machine after a course of steps.
    pub open spec fn run(self, steps: Seq<MachineStep>) -> Machine
        decreases steps.len(),
    {
        if steps.len() == 0 {
            self
        } else {
            self.run(steps.drop_last()).step(steps.last())
        }
    }

    /// Whether every step of the course can happen where it does.
    pub open spec fn allows_all(self, steps: Seq<MachineStep>) -> bool
        decreases steps.len(),
    {
        steps.len() == 0 || {
            &&& self.allows_all(steps.drop_last())
            &&& self.run(steps.drop_last()).allows(steps.last())
        }
    }

    /// A wake-up is remembered: by the flag until the executor looks at it, and
    /// by the latch when it has decided to sleep.
    pub open spec fn remembers(self) -> bool {
        self.unserved ==> if self.stage == RunStage::Sleep {
            self.latch
        } else {
            self.executor.work_pending
        }
    }
}

/// No wake-up is slept through: whenever it comes, and also between the look at
/// the flag and the wait instruction, an executor with a wake-up to serve can go
/// on. If it sleeps its latch is set, so that the wait instruction returns and the
/// tasks are polled again.
pub proof fn wake_up_is_never_slept_through(machine: Machine, steps: Seq<MachineStep>)
    requires
        machine.remembers(),
        machine.allows_all(steps),
    ensures
        machine.run(steps).remembers(),
        machine.run(steps).unserved ==> machine.run(steps).allows(MachineStep::Advance),
    decreases steps.len(),
{
    if steps.len() > 0 {
        wake_up_is_never_slept_through(machine, steps.drop_last());
        if let MachineStep::Wake(sctlr) = steps.last() {
            lemma_sctlr_bits(sctlr);
        }
    }
}

/// How often the thread was done with `stage` in a course of steps.
pub open spec fn count_done(machine: Machine, steps: Seq<MachineStep>, stage: RunStage) -> nat
    decreases steps.len(),
{
    if steps.len() == 0 {
        0
    } else {
        count_done(machine, steps.drop_last(), stage) + (if steps.last() == MachineStep::Advance
            && machine.run(steps.drop_last()).stage == stage {
            1nat
        } else {
            0nat
        })
    }
}

/// The caller spawns its tasks exactly once, before anything else that the thread
/// does, whatever wakes it meanwhile.
pub proof fn tasks_are_spawned_once(machine: Machine, steps: Seq<MachineStep>)
    requires
        machine.stage == RunStage::Spawn,
    ensures
        count_done(machine, steps, RunStage::Spawn) <= 1,
        count_done(machine, steps, RunStage::Spawn) == 0 <==> machine.run(steps).stage
            == RunStage::Spawn,
        forall|stage: RunStage| #[trigger]
            count_done(machine, steps, stage) > 0 ==> count_done(machine, steps, RunStage::Spawn)
                == 1,
    decreases steps.len(),
{
    if steps.len() > 0 {
        let before = steps.drop_last();
        tasks_are_spawned_once(machine, before);
        assert forall|stage: RunStage| #[trigger]
            count_done(machine, steps, stage) > 0 implies count_done(
            machine,
            steps,
            RunStage::Spawn,
        ) == 1 by {
            assert(count_done(machine, before, stage) > 0 ==> count_done(
                machine,
                before,
                RunStage::Spawn,
            ) == 1);
        }
    }
}

/// The thread sleeps exactly when a look after a poll of the tasks finds no work,
/// and each look takes the flag. After a sleep the tasks are polled.
pub proof fn sleep_follows_idle_look(executor: Executor, stage: RunStage)
    ensures
        executor.run_next(stage) == RunStage::Sleep <==> stage == RunStage::Look
            && !executor.work_pending,
        !executor.after_stage(RunStage::Look).work_pending,
        executor.run_next(stage) == RunStage::Look <==> stage == RunStage::Poll,
        executor.run_next(RunStage::Sleep) == RunStage::Poll,
{
}

/// Waking a task keeps event sleep on.
pub proof fn wake_keeps_event_sleep(sctlr: u32)
    ensures
        Executor::wake_control(sctlr | SCTLR_WFITOWFE) & SCTLR_WFITOWFE == SCTLR_WFITOWFE,
        Executor::wake_control(sctlr) & !SCTLR_SETEVENT == sctlr & !SCTLR_SETEVENT,
{
    lemma_sctlr_bits(sctlr);
}

proof fn lemma_sctlr_bits(s: u32)
    by (bit_vector)
    ensures
        ((s | 0x08u32) | 0x20u32) & 0x08u32 == 0x08u32,
        (s | 0x20u32) & !0x20u32 == s & !0x20u32,
        (s | 0x20u32) & 0x20u32 != 0,
{
}

proof fn lemma_sctlr_digits(s: u32, w: u32, e: u32)
    by (bit_vector)
    requires
        w == s | 0x20u32,
        e == s | 0x08u32,
    ensures
        w / 32 % 2 == 1 && w / 64 == s / 64 && w % 32 == s % 32,
        e / 8 % 2 == 1 && e / 16 == s / 16 && e % 8 == s % 8,
{
}

/// A wake-up sets bit 5 of the system control register and the flag; a new executor
/// sets bit 3 and keeps the flag. Every other bit is kept.
pub proof fn control_bits_are_set(
    executor: &mut Executor,
    pending: bool,
    sctlr: u32,
    woken: u32,
    created: (Executor, u32),
)
    requires
        call_ensures(Executor::pender, (executor, sctlr), woken),
        call_ensures(Executor::new, (pending, sctlr), created),
    ensures
        final(executor).work_pending,
        woken / 32 % 2 == 1 && woken / 64 == sctlr / 64 && woken % 32 == sctlr % 32,
        created.0.work_pending == pending,
        created.1 / 8 % 2 == 1 && created.1 / 16 == sctlr / 16 && created.1 % 8 == sctlr % 8,
{
    lemma_sctlr_digits(sctlr, woken, created.1);
}

/// A look at the flag takes it, and sleeps exactly when it was not set.
pub proof fn look_takes_the_flag(executor: &mut Executor, idle: Idle)
    requires
        call_ensures(Executor::after_poll, (executor,), idle),
    ensures
        idle == Idle::Sleep <==> !old(executor).work_pending,
        !final(executor).work_pending,
{
}

/// Tasks are spawned, then polled; after each poll comes a look, and after a look that
/// found no wake-up the core sleeps until the next poll. Only the look changes the flag.
pub proof fn run_polls_looks_and_sleeps(executor: &mut Executor, stage: RunStage, next: RunStage)
    requires
        call_ensures(Executor::run, (executor, stage), next),
    ensures
        stage == RunStage::Spawn || stage == RunStage::Sleep ==> next == RunStage::Poll,
        stage == RunStage::Poll ==> next == RunStage::Look,
        stage == RunStage::Look && old(executor).work_pending ==> next == RunStage::Poll,
        stage == RunStage::Look && !old(executor).work_pending ==> next == RunStage::Sleep,
        final(executor).work_pending == (old(executor).work_pending && stage != RunStage::Look),
{
}

/// Turning waiting for an interrupt into waiting for an event sets bit 3 of the system
/// control register and keeps every other bit.
pub proof fn event_sleep_is_one_bit(sctlr: u32, result: u32)
    requires
        call_ensures(enable_event_sleep, (sctlr,), result),
    ensures
        result / 8 % 2 == 1 && result / 16 == sctlr / 16 && result % 8 == sctlr % 8,
{
    lemma_sctlr_digits(sctlr, sctlr | 0x20u32, result);
}

} // verus!
