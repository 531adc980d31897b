//! Interrupt-driven UART0 to UART3.
//!
//! The FIFOs themselves are read and written outside; this module decides when
//! a transfer is over, when its task is to be woken, and which interrupts are on
//! meanwhile.

use core::marker::PhantomData;

use vstd::prelude::*;

pub use crate::attempt::Attempt;
use crate::interrupt::typelevel;
use crate::interrupt::typelevel::{Binding, Handler, Interrupt};
use crate::pfic::{PficAction, Priority};

pub mod laws;
mod sealed;

verus! {

/// Interrupt enables of the receiving side: data, and line status.
pub const RX_INTERRUPT_BITS: u8 = 0x05;

/// Interrupt enable of the transmitting side.
pub const TX_INTERRUPT_BIT: u8 = 0x02;

/// Interrupt enables of both sides.
pub const ALL_INTERRUPT_BITS: u8 = 0x07;

/// Number of bit times in the longest frame, times the microseconds in a second.
pub const FRAME_BIT_MICROS: u64 = 12_000_000;

/// A UART peripheral.
pub trait Instance: sealed::Sealed + Sized {
    /// The interrupt of the peripheral.
    type Interrupt: Interrupt;

    /// The number of the peripheral.
    spec fn spec_index() -> usize;

    /// The number of the peripheral.
    fn index() -> (index: usize)
        ensures
            index == Self::spec_index(),
            index < 4,
    ;
}

#[derive(Clone, Copy, Debug)]
pub struct UART0;

impl sealed::Sealed for UART0 {

}

impl Instance for UART0 {
    type Interrupt = typelevel::UART0;

    open spec fn spec_index() -> usize {
        0
    }

    fn index() -> (index: usize) {
        0
    }
}

#[derive(Clone, Copy, Debug)]
pub struct UART1;

impl sealed::Sealed for UART1 {

}

impl Instance for UART1 {
    type Interrupt = typelevel::UART1;

    open spec fn spec_index() -> usize {
        1
    }

    fn index() -> (index: usize) {
        1
    }
}

#[derive(Clone, Copy, Debug)]
pub struct UART2;

impl sealed::Sealed for UART2 {

}

impl Instance for UART2 {
    type Interrupt = typelevel::UART2;

    open spec fn spec_index() -> usize {
        2
    }

    fn index() -> (index: usize) {
        2
    }
}

#[derive(Clone, Copy, Debug)]
pub struct UART3;

impl sealed::Sealed for UART3 {

}

impl Instance for UART3 {
    type Interrupt = typelevel::UART3;

    open spec fn spec_index() -> usize {
        3
    }

    fn index() -> (index: usize) {
        3
    }
}

/// One effect on the hardware or on the scheduler. A list of actions is
/// performed from first to last.
#[derive(Clone, Copy, Debug, PartialEq, Eq, Structural)]
pub enum UartAction {
    /// Write the interrupt enable register.
    WriteInterruptEnable(u8),
    /// Ask the interrupt controller.
    Pfic(PficAction),
    /// Wake the task that reads from this UART.
    WakeRx(usize),
    /// Wake the task that writes to this UART.
    WakeTx(usize),
}

/// The interrupt enables with those of `mask` on.
pub fn enable_interrupts(ier: u8, mask: u8) -> (result: u8)
    ensures
        result == ier | mask,
{
    ier | mask
}

/// The interrupt enables with those of `mask` off.
pub fn disable_interrupts(ier: u8, mask: u8) -> (result: u8)
    ensures
        result == ier & !mask,
{
    ier & !mask
}

/// What a UART showed when its interrupt was taken.
#[derive(Clone, Copy, Debug)]
pub struct UartSnapshot {
    /// The identification of the interrupt.
    pub interrupt_id: u8,
    /// The interrupt enable register.
    pub ier: u8,
}

/// Which side an interrupt concerns.
#[derive(Clone, Copy, Debug, PartialEq, Eq, Structural)]
pub enum Source {
    Transmit,
    Receive,
    /// An interrupt that was not expected; it may concern either side.
    Unknown,
}

/// The side that an interrupt identification stands for.
pub open spec fn spec_source(interrupt_id: u8) -> Source {
    if interrupt_id == 0x02 {
        Source::Transmit
    } else if interrupt_id == 0x04 || interrupt_id == 0x06 || interrupt_id == 0x0c {
        Source::Receive
    } else {
        Source::Unknown
    }
}

/// The interrupt enables that a source can be behind.
pub open spec fn source_mask(source: Source) -> u8 {
    match source {
        Source::Transmit => TX_INTERRUPT_BIT,
        Source::Receive => RX_INTERRUPT_BITS,
        Source::Unknown => ALL_INTERRUPT_BITS,
    }
}

/// The effects of the interrupt of UART `index`: the source is turned off, since
/// its level would interrupt again at once, and the tasks that it concerns are
/// woken.
pub open spec fn interrupt_actions(index: usize, snapshot: UartSnapshot) -> Seq<UartAction> {
    let source = spec_source(snapshot.interrupt_id);
    let off = UartAction::WriteInterruptEnable(snapshot.ier & !source_mask(source));
    match source {
        Source::Transmit => seq![off, UartAction::WakeTx(index)],
        Source::Receive => seq![off, UartAction::WakeRx(index)],
        Source::Unknown => seq![off, UartAction::WakeRx(index), UartAction::WakeTx(index)],
    }
}

/// Handles the interrupt of UART `index`.
pub fn on_interrupt(index: usize, snapshot: &UartSnapshot) -> (actions: Vec<UartAction>)
    ensures
        actions@ == interrupt_actions(index, *snapshot),
{
    let mut actions: Vec<UartAction> = Vec::new();
    let ier: u8 = snapshot.ier;
    let id: u8 = snapshot.interrupt_id;
    if id == 0x02 {
        actions.push(
            UartAction::WriteInterruptEnable(disable_interrupts(ier, TX_INTERRUPT_BIT)),
        );
        actions.push(UartAction::WakeTx(index));
    } else if id == 0x04 || id == 0x06 || id == 0x0c {
        actions.push(
            UartAction::WriteInterruptEnable(disable_interrupts(ier, RX_INTERRUPT_BITS)),
        );
        actions.push(UartAction::WakeRx(index));
    } else {
        actions.push(
            UartAction::WriteInterruptEnable(disable_interrupts(ier, ALL_INTERRUPT_BITS)),
        );
        actions.push(UartAction::WakeRx(index));
        actions.push(UartAction::WakeTx(index));
    }
    assert(actions@ =~= interrupt_actions(index, *snapshot));
    actions
}

/// The handler of a UART's interrupt.
pub struct InterruptHandler<T: Instance> {
    pub instance: PhantomData<T>,
}

impl<T: Instance> Handler<T::Interrupt> for InterruptHandler<T> {
    type State = ();

    type Snapshot = UartSnapshot;

    type Effect = UartAction;

    fn on_interrupt(state: &mut (), snapshot: &UartSnapshot) -> (actions: Vec<UartAction>)
        ensures
            actions@ == interrupt_actions(T::spec_index(), *snapshot),
    {
        on_interrupt(T::index(), snapshot)
    }
}

/// The interrupts that a transfer turns on. Whoever ends or drops the transfer
/// calls `release`, which turns them off again.
#[derive(Clone, Copy, Debug, PartialEq, Eq, Structural)]
pub struct InterruptGuard {
    pub mask: u8,
}

impl InterruptGuard {
    /// A guard of the interrupt enables of `mask`.
    pub fn new(mask: u8) -> (guard: InterruptGuard)
        ensures
            guard.mask == mask,
    {
        InterruptGuard { mask }
    }

    /// The interrupt enables without those of the transfer.
    pub fn release(&self, ier: u8) -> (result: u8)
        ensures
            result == ier & !self.mask,
    {
        disable_interrupts(ier, self.mask)
    }
}

/// What a poll does next.
#[derive(Debug, PartialEq, Eq)]
pub enum Progress<R> {
    /// The transfer is over.
    Ready(R),
    /// Register the task to be woken, write this value to the interrupt enable
    /// register, and make the second attempt.
    Listen(u8),
    /// Sleep until woken.
    Pending,
}

/// What a poll does after an attempt that was, or was not, `over`.
pub open spec fn progress<R>(attempt: Attempt, over: Option<R>, ier: u8, mask: u8) -> Progress<R> {
    match (over, attempt) {
        (Some(result), _) => Progress::Ready(result),
        (None, Attempt::First) => Progress::Listen(ier | mask),
        (None, Attempt::Second) => Progress::Pending,
    }
}

fn next_progress<R>(attempt: Attempt, over: Option<R>, ier: u8, mask: u8) -> (result: Progress<R>)
    ensures
        result == progress(attempt, over, ier, mask),
{
    match over {
        Some(result) => Progress::Ready(result),
        None => match attempt {
            Attempt::First => Progress::Listen(enable_interrupts(ier, mask)),
            Attempt::Second => Progress::Pending,
        },
    }
}

/// Whether an attempt to move bytes ends the transfer: it does unless it moved
/// none.
pub open spec fn moved<E>(result: Result<usize, E>) -> Option<Result<usize, E>> {
    match result {
        Ok(0) => None,
        _ => Some(result),
    }
}

fn has_moved<E>(result: Result<usize, E>) -> (over: Option<Result<usize, E>>)
    ensures
        over == moved(result),
{
    match result {
        Ok(count) => {
            if count == 0 {
                None
            } else {
                Some(Ok(count))
            }
        },
        Err(error) => Some(Err(error)),
    }
}

/// What `flush` does next.
#[derive(Clone, Copy, Debug, PartialEq, Eq, Structural)]
pub enum FlushStep {
    /// Everything was sent.
    Done,
    /// Wait until the FIFO is empty, then look again.
    WaitForFifo,
    /// Sleep for this many microseconds, then start over.
    Sleep(u64),
}

/// The time of the longest frame in whole microseconds, rounded up.
pub open spec fn frame_micros(baudrate: u32) -> int {
    (FRAME_BIT_MICROS + baudrate - 1) / baudrate as int
}

/// Full-duplex UART.
#[derive(Debug)]
pub struct Uart<T: Instance> {
    pub baudrate: u32,
    pub instance: PhantomData<T>,
}

/// The effects of taking a configured UART into use: a request from before is
/// forgotten before the interrupt is let through.
pub open spec fn start_actions(irq: u8) -> Seq<UartAction> {
    seq![
        UartAction::Pfic(PficAction::Unpend { irq }),
        UartAction::Pfic(PficAction::SetPriority { irq, bits: 0xe0 }),
        UartAction::Pfic(PficAction::Enable { irq }),
    ]
}

/// The effects of giving a UART back.
pub open spec fn stop_actions(irq: u8, ier: u8) -> Seq<UartAction> {
    seq![
        UartAction::WriteInterruptEnable(ier & !ALL_INTERRUPT_BITS),
        UartAction::Pfic(PficAction::Disable { irq }),
        UartAction::Pfic(PficAction::Unpend { irq }),
    ]
}

impl<T: Instance> Uart<T> {
    /// Takes a UART into use. `configured` is what configuring the peripheral
    /// gave: the baud rate that its dividers produce, or why it failed.
    pub fn new<E, B: Binding<T::Interrupt, InterruptHandler<T>>>(
        configured: Result<u32, E>,
        _irq: B,
    ) -> (result: Result<(Uart<T>, Vec<UartAction>), E>)
        ensures
            configured matches Ok(baudrate) ==> {
                &&& result matches Ok((uart, actions))
                &&& uart.baudrate == baudrate
                &&& <T::Interrupt as Interrupt>::vector().spec_number() matches Some(irq)
                &&& actions@ == start_actions(irq)
            },
            configured matches Err(error) ==> result == Err::<(Uart<T>, Vec<UartAction>), E>(error),
    {
        match configured {
            Ok(baudrate) => {
                let irq: u8 = <T::Interrupt as Interrupt>::irq_number();
                let mut actions: Vec<UartAction> = Vec::new();
                actions.push(UartAction::Pfic(PficAction::Unpend { irq }));
                actions.push(
                    UartAction::Pfic(
                        PficAction::SetPriority { irq, bits: Priority::P14.bits() },
                    ),
                );
                actions.push(UartAction::Pfic(PficAction::Enable { irq }));
                assert(actions@ =~= start_actions(irq));
                Ok((Uart { baudrate, instance: PhantomData }, actions))
            },
            Err(error) => Err(error),
        }
    }

    /// The baud rate that the dividers produce.
    pub fn actual_baudrate(&self) -> (baudrate: u32)
        ensures
            baudrate == self.baudrate,
    {
        self.baudrate
    }

    /// Begins to read into a buffer of `capacity` bytes. `None` means that the
    /// read is over with no byte, since the buffer has no room.
    pub fn begin_read(&self, capacity: usize) -> (guard: Option<InterruptGuard>)
        ensures
            guard == (if capacity == 0 {
                None
            } else {
                Some(InterruptGuard { mask: RX_INTERRUPT_BITS })
            }),
    {
        if capacity == 0 {
            return None;
        }
        Some(InterruptGuard::new(RX_INTERRUPT_BITS))
    }

    /// Polls a read, after an attempt to take bytes from the FIFO gave `taken`.
    pub fn read<E>(&self, attempt: Attempt, taken: Result<usize, E>, ier: u8) -> (result: Progress<
        Result<usize, E>,
    >)
        ensures
            result == progress(attempt, moved(taken), ier, RX_INTERRUPT_BITS),
    {
        next_progress(attempt, has_moved(taken), ier, RX_INTERRUPT_BITS)
    }

    /// Begins to write `length` bytes. `None` means that the write is over with
    /// no byte, since there is none.
    pub fn begin_write(&self, length: usize) -> (guard: Option<InterruptGuard>)
        ensures
            guard == (if length == 0 {
                None
            } else {
                Some(InterruptGuard { mask: TX_INTERRUPT_BIT })
            }),
    {
        if length == 0 {
            return None;
        }
        Some(InterruptGuard::new(TX_INTERRUPT_BIT))
    }

    /// Polls a write, after an attempt to put bytes into the FIFO gave `put`.
    pub fn write<E>(&self, attempt: Attempt, put: Result<usize, E>, ier: u8) -> (result: Progress<
        Result<usize, E>,
    >)
        ensures
            result == progress(attempt, moved(put), ier, TX_INTERRUPT_BIT),
    {
        next_progress(attempt, has_moved(put), ier, TX_INTERRUPT_BIT)
    }

    /// Begins to wait until the transmit FIFO is empty.
    pub fn begin_wait_for_tx_fifo_empty(&self) -> (guard: InterruptGuard)
        ensures
            guard.mask == TX_INTERRUPT_BIT,
    {
        InterruptGuard::new(TX_INTERRUPT_BIT)
    }

    /// Polls for the transmit FIFO to be empty, after a look at it gave `empty`.
    pub fn wait_for_tx_fifo_empty(&self, attempt: Attempt, empty: bool, ier: u8) -> (result:
        Progress<()>)
        ensures
            result == progress(
                attempt,
                if empty {
                    Some(())
                } else {
                    None
                },
                ier,
                TX_INTERRUPT_BIT,
            ),
    {
        let over = if empty {
            Some(())
        } else {
            None
        };
        next_progress(attempt, over, ier, TX_INTERRUPT_BIT)
    }

    /// Decides how a flush goes on, after a look at the transmitter gave `idle`:
    /// whether FIFO and shift register are empty. `attempt` tells whether the
    /// FIFO was found empty since the flush began or last slept. What is left
    /// then is one frame at most, so its time is slept out.
    pub fn flush(&self, attempt: Attempt, idle: bool) -> (step: FlushStep)
        requires
            attempt == Attempt::Second && !idle ==> self.baudrate > 0,
        ensures
            step == (if idle {
                FlushStep::Done
            } else {
                match attempt {
                    Attempt::First => FlushStep::WaitForFifo,
                    Attempt::Second => FlushStep::Sleep(frame_micros(self.baudrate) as u64),
                }
            }),
    {
        if idle {
            return FlushStep::Done;
        }
        match attempt {
            Attempt::First => FlushStep::WaitForFifo,
            Attempt::Second => {
                let baudrate: u64 = self.baudrate as u64;
                FlushStep::Sleep((FRAME_BIT_MICROS + baudrate - 1) / baudrate)
            },
        }
    }

    /// Gives the UART back: both sides and the interrupt are off.
    pub fn release(&self, ier: u8) -> (actions: Vec<UartAction>)
        ensures
            <T::Interrupt as Interrupt>::vector().spec_number() matches Some(irq) && actions@
                == stop_actions(irq, ier),
    {
        let irq: u8 = <T::Interrupt as Interrupt>::irq_number();
        let mut actions: Vec<UartAction> = Vec::new();
        actions.push(
            UartAction::WriteInterruptEnable(disable_interrupts(ier, ALL_INTERRUPT_BITS)),
        );
        actions.push(UartAction::Pfic(PficAction::Disable { irq }));
        actions.push(UartAction::Pfic(PficAction::Unpend { irq }));
        assert(actions@ =~= stop_actions(irq, ier));
        actions
    }
}

/// A transfer that is over or dropped leaves no interrupt of its own on, and does
/// not touch those of the other direction.
pub proof fn dropped_transfer_turns_interrupts_off(ier: u8, mask: u8, other: u8)
    requires
        mask & other == 0,
    ensures
        ((ier | mask) & !mask) & mask == 0,
        ((ier | mask) & !mask) & other == ier & other,
        ier & mask == 0 ==> (ier | mask) & !mask == ier,
{
    lemma_guard_bits(ier, mask, other);
}

proof fn lemma_guard_bits(ier: u8, mask: u8, other: u8)
    by (bit_vector)
    ensures
        ((ier | mask) & !mask) & mask == 0,
        mask & other == 0 ==> ((ier | mask) & !mask) & other == ier & other,
        ier & mask == 0 ==> (ier | mask) & !mask == ier,
{
}

/// The two directions do not share interrupts: ending a transfer of one keeps
/// those of the other, and ending both turns off all that giving the UART back
/// does.
pub proof fn directions_are_independent(ier: u8)
    ensures
        (ier & !RX_INTERRUPT_BITS) & TX_INTERRUPT_BIT == ier & TX_INTERRUPT_BIT,
        (ier & !TX_INTERRUPT_BIT) & RX_INTERRUPT_BITS == ier & RX_INTERRUPT_BITS,
        (ier & !RX_INTERRUPT_BITS) & !TX_INTERRUPT_BIT == ier & !ALL_INTERRUPT_BITS,
{
    lemma_direction_bits(ier);
}

proof fn lemma_direction_bits(ier: u8)
    by (bit_vector)
    ensures
        (ier & !0x05u8) & 0x02u8 == ier & 0x02u8,
        (ier & !0x02u8) & 0x05u8 == ier & 0x05u8,
        (ier & !0x05u8) & !0x02u8 == ier & !0x07u8,
{
}

/// A task sleeps only after an attempt that failed with its interrupts on: what
/// arrives after that attempt interrupts.
pub proof fn sleep_follows_armed_attempt<R>(attempt: Attempt, over: Option<R>, ier: u8, mask: u8)
    requires
        progress(attempt, over, ier, mask) is Pending,
    ensures
        attempt == Attempt::Second,
        over is None,
        progress(Attempt::First, None::<R>, ier, mask) matches Progress::Listen(armed) && armed
            & mask == mask,
{
    lemma_armed_bits(ier, mask);
}

/// A transfer that can be dropped has moved no byte: a poll that does not end it
/// made no attempt that moved one or failed, so dropping it loses nothing.
pub proof fn unfinished_transfer_moved_nothing<E>(
    attempt: Attempt,
    result: Result<usize, E>,
    ier: u8,
    mask: u8,
)
    requires
        !(progress(attempt, moved(result), ier, mask) is Ready),
    ensures
        result == Ok::<usize, E>(0),
{
}

proof fn lemma_armed_bits(ier: u8, mask: u8)
    by (bit_vector)
    ensures
        (ier | mask) & mask == mask,
{
}

/// An interrupt quiets its source: none of the enables that it can have come
/// from is left on, and the others are kept.
pub proof fn interrupt_quiets_source(index: usize, snapshot: UartSnapshot)
    ensures
        interrupt_actions(index, snapshot)[0] matches UartAction::WriteInterruptEnable(ier) && ier
            & source_mask(spec_source(snapshot.interrupt_id)) == 0 && ier & !source_mask(
            spec_source(snapshot.interrupt_id),
        ) == snapshot.ier & !source_mask(spec_source(snapshot.interrupt_id)),
{
    lemma_quiet_bits(snapshot.ier, source_mask(spec_source(snapshot.interrupt_id)));
}

proof fn lemma_quiet_bits(ier: u8, mask: u8)
    by (bit_vector)
    ensures
        (ier & !mask) & mask == 0,
        (ier & !mask) & !mask == ier & !mask,
{
}

/// The time that a flush sleeps is enough for a frame of twelve bits, and less
/// than a microsecond longer.
pub proof fn sleep_covers_frame(baudrate: u32)
    requires
        baudrate > 0,
    ensures
        frame_micros(baudrate) * baudrate >= FRAME_BIT_MICROS,
        (frame_micros(baudrate) - 1) * baudrate < FRAME_BIT_MICROS,
        1 <= frame_micros(baudrate) <= FRAME_BIT_MICROS,
{
    let b = baudrate as int;
    let m = frame_micros(baudrate);
    let n = FRAME_BIT_MICROS + b - 1;
    assert(m * b <= n < m * b + b && (m - 1) * b == m * b - b && 0 <= m) by (nonlinear_arith)
        requires
            m == n / b,
            b > 0,
            n >= 0,
    ;
    assert(1 <= m) by (nonlinear_arith)
        requires
            n < m * b + b,
            n == 12_000_000 + b - 1,
            b > 0,
    ;
    assert(m <= FRAME_BIT_MICROS) by (nonlinear_arith)
        requires
            m * b <= n,
            n == 12_000_000 + b - 1,
            b > 0,
            FRAME_BIT_MICROS == 12_000_000,
    ;
}

} // verus!
