//! What the UART driver does with its interrupts, bit by bit.
//!
//! In the interrupt enable register bit 0 stands for received data, bit 1 for an
//! empty transmitter and bit 2 for the line status.

use vstd::prelude::*;

use crate::attempt::Attempt;
use crate::interrupt::typelevel::{Binding, Interrupt};
use crate::pfic::PficAction;
use crate::uart;
use crate::uart::{
    FlushStep, Instance, InterruptGuard, InterruptHandler, Progress, Uart, UartAction,
    UartSnapshot, UART0, UART1, UART2, UART3,
};

verus! {

/// Whether bit `bit` of a register is set.
pub open spec fn is_set(register: u8, bit: u8) -> bool {
    (register >> bit) & 1 == 1
}

/// Whether the bit belongs to the receiving side.
pub open spec fn is_rx(bit: u8) -> bool {
    bit == 0 || bit == 2
}

/// Whether the bit belongs to the transmitting side.
pub open spec fn is_tx(bit: u8) -> bool {
    bit == 1
}

proof fn lemma_enable_bits(ier: u8, mask: u8, b: u8)
    by (bit_vector)
    requires
        b < 8,
    ensures
        ((ier | mask) >> b) & 1 == 1 <==> (ier >> b) & 1 == 1 || (mask >> b) & 1 == 1,
        ((ier & !mask) >> b) & 1 == 1 <==> (ier >> b) & 1 == 1 && !((mask >> b) & 1 == 1),
        (0x05u8 >> b) & 1 == 1 <==> b == 0 || b == 2,
        (0x02u8 >> b) & 1 == 1 <==> b == 1,
        (0x07u8 >> b) & 1 == 1 <==> b == 0 || b == 1 || b == 2,
{
}

/// Turning interrupts on sets the bits of the mask, turning them off clears these
/// bits, and every other bit is kept.
pub proof fn masks_touch_their_bits(ier: u8, mask: u8, on: u8, off: u8, bit: u8)
    requires
        call_ensures(uart::enable_interrupts, (ier, mask), on),
        call_ensures(uart::disable_interrupts, (ier, mask), off),
        bit < 8,
    ensures
        is_set(on, bit) == (is_set(ier, bit) || is_set(mask, bit)),
        is_set(off, bit) == (is_set(ier, bit) && !is_set(mask, bit)),
{
    lemma_enable_bits(ier, mask, bit);
}

/// A transmitter interrupt turns the transmitter's interrupt off and wakes the
/// writer; received data, a line status and a receive timeout turn the receiver's
/// interrupts off and wake the reader; anything else turns all three off and wakes
/// both. No other bit changes.
pub proof fn interrupt_serves_its_side(
    index: usize,
    snapshot: UartSnapshot,
    actions: Vec<UartAction>,
    bit: u8,
)
    requires
        call_ensures(uart::on_interrupt, (index, &snapshot), actions),
        bit < 8,
    ensures
        ({
            let id = snapshot.interrupt_id;
            let receives = id == 4 || id == 6 || id == 12;
            let transmits = id == 2;
            &&& actions@[0] matches UartAction::WriteInterruptEnable(ier) && is_set(ier, bit) == (
            is_set(snapshot.ier, bit) && !(!transmits && is_rx(bit)) && !(!receives && is_tx(bit)))
            &&& transmits ==> actions@.len() == 2 && actions@[1] == UartAction::WakeTx(index)
            &&& receives ==> actions@.len() == 2 && actions@[1] == UartAction::WakeRx(index)
            &&& !transmits && !receives ==> actions@.len() == 3 && actions@[1]
                == UartAction::WakeRx(index) && actions@[2] == UartAction::WakeTx(index)
        }),
{
    lemma_enable_bits(snapshot.ier, uart::source_mask(uart::spec_source(snapshot.interrupt_id)), bit);
}

/// The UARTs are numbered in order and have their own interrupts.
pub proof fn uarts_have_their_interrupts()
    ensures
        UART0::spec_index() == 0,
        UART1::spec_index() == 1,
        UART2::spec_index() == 2,
        UART3::spec_index() == 3,
        <<UART0 as Instance>::Interrupt as Interrupt>::vector().spec_number() == Some(26u8),
        <<UART1 as Instance>::Interrupt as Interrupt>::vector().spec_number() == Some(27u8),
        <<UART2 as Instance>::Interrupt as Interrupt>::vector().spec_number() == Some(33u8),
        <<UART3 as Instance>::Interrupt as Interrupt>::vector().spec_number() == Some(34u8),
{
}

/// A configured UART is taken into use with the baud rate that it was given: an old
/// request is forgotten before its own interrupt is let through, at the urgency
/// before the last. What configuring failed with is passed on.
pub proof fn configured_uart_is_taken<T: Instance, E, B: Binding<T::Interrupt, InterruptHandler<T>>>(
    configured: Result<u32, E>,
    irq: B,
    result: Result<(Uart<T>, Vec<UartAction>), E>,
    number: u8,
)
    requires
        call_ensures(Uart::<T>::new::<E, B>, (configured, irq), result),
        <T::Interrupt as Interrupt>::vector().spec_number() == Some(number),
    ensures
        match configured {
            Ok(rate) => result matches Ok((port, actions)) && port.baudrate == rate && actions@
                == seq![
                UartAction::Pfic(PficAction::Unpend { irq: number }),
                UartAction::Pfic(PficAction::SetPriority { irq: number, bits: 224 }),
                UartAction::Pfic(PficAction::Enable { irq: number }),
            ],
            Err(error) => result == Err::<(Uart<T>, Vec<UartAction>), E>(error),
        },
{
}

/// A UART that is given back has all three interrupts off and its interrupt neither
/// let through nor requested; no other bit changes.
pub proof fn released_uart_is_silent<T: Instance>(
    port: Uart<T>,
    ier: u8,
    actions: Vec<UartAction>,
    number: u8,
    bit: u8,
)
    requires
        call_ensures(Uart::<T>::release, (&port, ier), actions),
        <T::Interrupt as Interrupt>::vector().spec_number() == Some(number),
        bit < 8,
    ensures
        actions@.len() == 3,
        actions@[0] matches UartAction::WriteInterruptEnable(after) && is_set(after, bit) == (is_set(
            ier,
            bit,
        ) && bit > 2),
        actions@[1] == UartAction::Pfic(PficAction::Disable { irq: number }),
        actions@[2] == UartAction::Pfic(PficAction::Unpend { irq: number }),
{
    lemma_enable_bits(ier, 0x07, bit);
}

/// A transfer of no byte is over at once. A read owns the interrupts of the
/// receiving side, a write and a wait for the empty FIFO that of the transmitting
/// side; ending it turns off what it owns and nothing else.
pub proof fn transfers_own_their_side<T: Instance>(
    port: Uart<T>,
    length: usize,
    read: Option<InterruptGuard>,
    write: Option<InterruptGuard>,
    wait: InterruptGuard,
    guard: InterruptGuard,
    ier: u8,
    ended: u8,
    bit: u8,
)
    requires
        call_ensures(Uart::<T>::begin_read, (&port, length), read),
        call_ensures(Uart::<T>::begin_write, (&port, length), write),
        call_ensures(Uart::<T>::begin_wait_for_tx_fifo_empty, (&port,), wait),
        call_ensures(InterruptGuard::release, (&guard, ier), ended),
        bit < 8,
    ensures
        read is None <==> length == 0,
        write is None <==> length == 0,
        read == Some(guard) ==> is_set(ended, bit) == (is_set(ier, bit) && !is_rx(bit)),
        write == Some(guard) ==> is_set(ended, bit) == (is_set(ier, bit) && !is_tx(bit)),
        wait == guard ==> is_set(ended, bit) == (is_set(ier, bit) && !is_tx(bit)),
{
    lemma_enable_bits(ier, guard.mask, bit);
}

/// A poll of a transfer ends it with what an attempt gave, if that moved a byte or
/// failed. Otherwise the first attempt turns on the interrupts of its side, and no
/// other, and the second one sleeps.
pub open spec fn polls<E>(
    progress: Progress<Result<usize, E>>,
    attempt: Attempt,
    result: Result<usize, E>,
    ier: u8,
    receiving: bool,
    bit: u8,
) -> bool {
    if result != Ok::<usize, E>(0) {
        progress == Progress::Ready(result)
    } else {
        match attempt {
            Attempt::First => progress matches Progress::Listen(armed) && is_set(armed, bit) == (
            is_set(ier, bit) || if receiving {
                is_rx(bit)
            } else {
                is_tx(bit)
            }),
            Attempt::Second => progress is Pending,
        }
    }
}

/// Reads and writes are polled on their own side.
pub proof fn transfers_are_polled_on_their_side<T: Instance, E>(
    port: Uart<T>,
    attempt: Attempt,
    result: Result<usize, E>,
    ier: u8,
    read: Progress<Result<usize, E>>,
    write: Progress<Result<usize, E>>,
    bit: u8,
)
    requires
        call_ensures(Uart::<T>::read::<E>, (&port, attempt, result, ier), read),
        call_ensures(Uart::<T>::write::<E>, (&port, attempt, result, ier), write),
        bit < 8,
    ensures
        polls(read, attempt, result, ier, true, bit),
        polls(write, attempt, result, ier, false, bit),
{
    lemma_enable_bits(ier, 0x05, bit);
    lemma_enable_bits(ier, 0x02, bit);
}

/// A wait for the empty FIFO is over exactly when it is empty. Otherwise the first
/// look turns the transmitter's interrupt on, and the second one sleeps.
pub proof fn wait_is_over_when_fifo_is_empty<T: Instance>(
    port: Uart<T>,
    attempt: Attempt,
    empty: bool,
    ier: u8,
    progress: Progress<()>,
    bit: u8,
)
    requires
        call_ensures(Uart::<T>::wait_for_tx_fifo_empty, (&port, attempt, empty, ier), progress),
        bit < 8,
    ensures
        progress is Ready <==> empty,
        !empty && attempt == Attempt::First ==> (progress matches Progress::Listen(armed)
            && is_set(armed, bit) == (is_set(ier, bit) || is_tx(bit))),
        !empty && attempt == Attempt::Second ==> progress is Pending,
{
    lemma_enable_bits(ier, 0x02, bit);
}

/// A flush is over exactly when the transmitter is idle. Otherwise it waits for the
/// FIFO first, and then sleeps for the least whole number of microseconds in which
/// twelve bits are sent.
pub proof fn flush_sleeps_out_one_frame<T: Instance>(
    port: Uart<T>,
    attempt: Attempt,
    idle: bool,
    step: FlushStep,
)
    requires
        call_ensures(Uart::<T>::flush, (&port, attempt, idle), step),
        port.baudrate > 0,
    ensures
        step == FlushStep::Done <==> idle,
        !idle && attempt == Attempt::First ==> step == FlushStep::WaitForFifo,
        !idle && attempt == Attempt::Second ==> (step matches FlushStep::Sleep(micros) && micros
            * port.baudrate >= 12 * 1_000_000 && (micros - 1) * port.baudrate < 12 * 1_000_000),
{
    uart::sleep_covers_frame(port.baudrate);
}

/// A UART tells the baud rate that it was given.
pub proof fn baudrate_is_told<T: Instance>(port: Uart<T>, rate: u32)
    requires
        call_ensures(Uart::<T>::actual_baudrate, (&port,), rate),
    ensures
        rate == port.baudrate,
{
}

} // verus!
