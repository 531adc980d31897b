use embassy_ch58x::chip::Chip;
use embassy_ch58x::executor::{Executor, Idle, RunStage};
use embassy_ch58x::gpio::{
    event_index, interrupt_mask, is_interrupt_pin, GpioAction, GpioRegisters, GpioState, Input,
    WaitProgress,
};
use embassy_ch58x::interrupt::typelevel::{self, Binding, Handler, Interrupt};
use embassy_ch58x::interrupt::{external_interrupts, Vector};
use embassy_ch58x::pfic::{PficAction, Priority};
use embassy_ch58x::uart::{
    Attempt, FlushStep, InterruptGuard, InterruptHandler, Progress, Uart, UartAction, UartSnapshot,
    UART0, UART1, UART3,
};

#[derive(Clone, Copy)]
struct Irqs;

impl Binding<typelevel::UART0, InterruptHandler<UART0>> for Irqs {}
impl Binding<typelevel::UART3, InterruptHandler<UART3>> for Irqs {}

#[test]
fn priorities_are_in_the_high_nibble() {
    assert_eq!(Priority::P1.bits(), 0x10);
    assert_eq!(Priority::P14.bits(), 0xe0);
    assert_eq!(Priority::P15.bits(), 0xf0);
}

#[test]
fn vectors_are_in_their_slots() {
    let short = external_interrupts(Chip::Ch582);
    let long = external_interrupts(Chip::Ch585);
    assert_eq!((short.len(), long.len()), (20, 24));
    let slot = |number: u8| number as usize - 16;
    assert_eq!(short[slot(typelevel::USB::irq_number())], Vector::USB);
    assert_eq!(long[slot(typelevel::USB::irq_number())], Vector::USB);
    assert_eq!(short[slot(typelevel::USB2::irq_number())], Vector::USB2);
    assert_eq!(long[slot(typelevel::USB2::irq_number())], Vector::DefaultHandler);
    assert_eq!(long[slot(typelevel::USB2_DEVICE::irq_number())], Vector::USB2_DEVICE);
    assert_eq!(typelevel::USB2_DEVICE::irq_number(), 37);
    assert_eq!(short[slot(typelevel::WDOG_BAT::irq_number())], Vector::WDOG_BAT);
    assert_eq!(short[4], Vector::DefaultHandler);
    assert_eq!(long[23], Vector::LED);
}

fn registers() -> GpioRegisters {
    GpioRegisters { pin_alternate: 0x2001, out: 0x1, int_mode: 0x00ff, int_en: 0x0001 }
}

#[test]
fn pins_have_events_and_channels() {
    assert_eq!(event_index(0, 15), 15);
    assert_eq!(event_index(1, 0), 16);
    assert_eq!(event_index(1, 16), 32);
    assert_eq!(event_index(1, 23), 39);
    assert_eq!(interrupt_mask(0, 15), 0x8000);
    assert_eq!(interrupt_mask(1, 8), 0x0100);
    assert_eq!(interrupt_mask(1, 22), 0x0100);
    assert_eq!(interrupt_mask(1, 23), 0x0200);
    assert!(is_interrupt_pin(0, 15) && is_interrupt_pin(1, 22) && is_interrupt_pin(1, 0));
    assert!(!is_interrupt_pin(0, 16) && !is_interrupt_pin(1, 21) && !is_interrupt_pin(1, 24));
    assert!(!is_interrupt_pin(2, 0));
}

#[test]
fn waits_configure_their_pin() {
    let mut state = GpioState::new();
    state.events[4] = true;
    let mut input = Input::new("PA4", 0, 4);
    let (wait, actions) = input.wait_for_rising_edge(&mut state, &registers());
    assert_eq!(
        actions,
        vec![
            GpioAction::WriteOut { port: 0, levels: 0x11 },
            GpioAction::WriteIntMode { port: 0, channels: 0x00ff },
            GpioAction::WriteIntFlags { port: 0, channels: 0x0010 },
            GpioAction::WriteIntEnable { port: 0, channels: 0x0011 },
            GpioAction::Pfic(PficAction::SetPriority { irq: 17, bits: 0xe0 }),
            GpioAction::Pfic(PficAction::Enable { irq: 17 }),
        ]
    );
    assert_eq!(wait.poll(Attempt::First, &mut state), WaitProgress::Register(4));
    assert_eq!(wait.poll(Attempt::Second, &mut state), WaitProgress::Pending);
    assert_eq!(wait.release(0x0011), GpioAction::WriteIntEnable { port: 0, channels: 0x0001 });
    let (_, actions) = input.wait_for_low(&mut state, &registers());
    assert_eq!(actions[0], GpioAction::WriteClear { port: 0, levels: 0x10 });
    assert_eq!(actions[1], GpioAction::WriteIntMode { port: 0, channels: 0x00ef });
    let (_, actions) = input.wait_for_high(&mut state, &registers());
    assert_eq!(actions[0], GpioAction::WriteOut { port: 0, levels: 0x11 });
    assert_eq!(actions[1], GpioAction::WriteIntMode { port: 0, channels: 0x00ef });
    let (_, actions) = input.wait_for_falling_edge(&mut state, &registers());
    assert_eq!(actions[0], GpioAction::WriteClear { port: 0, levels: 0x10 });
    assert_eq!(actions[1], GpioAction::WriteIntMode { port: 0, channels: 0x00ff });
}

#[test]
fn shared_channels_follow_the_pin() {
    let mut state = GpioState::new();
    let mut low = Input::new((), 1, 9);
    let (_, actions) = low.wait_for_high(&mut state, &registers());
    assert_eq!(actions[0], GpioAction::WritePinAlternate(0x0001));
    let mut high = Input::new((), 1, 23);
    let (wait, actions) = high.wait_for_high(&mut state, &registers());
    assert_eq!(actions[0], GpioAction::WritePinAlternate(0x2001));
    assert_eq!(actions[1], GpioAction::WriteOut { port: 1, levels: 0x80_0001 });
    assert_eq!(actions[4], GpioAction::WriteIntEnable { port: 1, channels: 0x0201 });
    let actions = state.handle_gpiob_interrupt(0x0201, 0x2001);
    assert_eq!(
        actions,
        vec![
            GpioAction::WriteIntFlags { port: 1, channels: 0x0201 },
            GpioAction::Wake(16),
            GpioAction::Wake(39),
        ]
    );
    assert_eq!(wait.poll(Attempt::First, &mut state), WaitProgress::Ready);
    assert_eq!(wait.poll(Attempt::First, &mut state), WaitProgress::Register(39));
    state.handle_gpiob_interrupt(0x0200, 0x2001);
    assert_eq!(wait.poll(Attempt::Second, &mut state), WaitProgress::Ready);
    let actions = state.handle_gpiob_interrupt(0x0200, 0x0001);
    assert_eq!(actions[1], GpioAction::Wake(25));
    assert_eq!(wait.poll(Attempt::Second, &mut state), WaitProgress::Pending);
}

#[test]
fn port_a_signals_its_pins() {
    let mut state = GpioState::new();
    let actions = state.handle_gpioa_interrupt(0x8100);
    assert_eq!(
        actions,
        vec![
            GpioAction::WriteIntFlags { port: 0, channels: 0x8100 },
            GpioAction::Wake(8),
            GpioAction::Wake(15),
        ]
    );
    assert!(state.events[8] && state.events[15] && !state.events[22]);
}

#[test]
fn degraded_input_is_the_same_pin() {
    let input: Input<u64> = Input::new(7u32, 1, 22).degrade();
    assert_eq!((input.pin, input.port, input.number), (7u64, 1, 22));
}

#[test]
fn uart_is_taken_and_given_back() {
    let (uart, actions) = Uart::<UART3>::new(Ok::<u32, ()>(115_384), Irqs).unwrap();
    assert_eq!(uart.actual_baudrate(), 115_384);
    assert_eq!(
        actions,
        vec![
            UartAction::Pfic(PficAction::Unpend { irq: 34 }),
            UartAction::Pfic(PficAction::SetPriority { irq: 34, bits: 0xe0 }),
            UartAction::Pfic(PficAction::Enable { irq: 34 }),
        ]
    );
    assert_eq!(
        uart.release(0x8f),
        vec![
            UartAction::WriteInterruptEnable(0x88),
            UartAction::Pfic(PficAction::Disable { irq: 34 }),
            UartAction::Pfic(PficAction::Unpend { irq: 34 }),
        ]
    );
    assert_eq!(Uart::<UART0>::new(Err::<u32, _>("rate"), Irqs).err(), Some("rate"));
}

#[test]
fn uart_interrupts_quiet_their_source() {
    let on = |interrupt_id| {
        let snapshot = UartSnapshot { interrupt_id, ier: 0x87 };
        InterruptHandler::<UART1>::on_interrupt(&mut (), &snapshot)
    };
    assert_eq!(on(0x02), vec![UartAction::WriteInterruptEnable(0x85), UartAction::WakeTx(1)]);
    for id in [0x04, 0x06, 0x0c] {
        assert_eq!(on(id), vec![UartAction::WriteInterruptEnable(0x82), UartAction::WakeRx(1)]);
    }
    assert_eq!(
        on(0x01),
        vec![UartAction::WriteInterruptEnable(0x80), UartAction::WakeRx(1), UartAction::WakeTx(1)]
    );
}

#[test]
fn uart_transfers_listen_before_they_sleep() {
    let (uart, _) = Uart::<UART0>::new(Ok::<u32, ()>(9600), Irqs).unwrap();
    assert_eq!(uart.begin_read(0), None);
    let guard = uart.begin_read(4).unwrap();
    assert_eq!(uart.read(Attempt::First, Ok::<_, u8>(3), 0), Progress::Ready(Ok(3)));
    assert_eq!(uart.read(Attempt::First, Err(9), 0), Progress::Ready(Err(9)));
    assert_eq!(uart.read(Attempt::First, Ok::<_, u8>(0), 0x80), Progress::Listen(0x85));
    assert_eq!(uart.read(Attempt::Second, Ok::<_, u8>(0), 0x85), Progress::Pending);
    assert_eq!(uart.read(Attempt::Second, Ok::<_, u8>(1), 0x85), Progress::Ready(Ok(1)));
    assert_eq!(guard.release(0x87), 0x82);
    assert_eq!(uart.begin_write(0), None);
    assert_eq!(uart.begin_write(1), Some(InterruptGuard { mask: 0x02 }));
    assert_eq!(uart.write(Attempt::First, Ok::<_, u8>(0), 0x80), Progress::Listen(0x82));
    assert_eq!(uart.write(Attempt::Second, Err(1), 0x82), Progress::Ready(Err::<usize, u8>(1)));
    assert_eq!(uart.begin_wait_for_tx_fifo_empty().release(0x87), 0x85);
    assert_eq!(uart.wait_for_tx_fifo_empty(Attempt::First, true, 0), Progress::Ready(()));
    assert_eq!(uart.wait_for_tx_fifo_empty(Attempt::First, false, 0), Progress::Listen(0x02));
    assert_eq!(uart.wait_for_tx_fifo_empty(Attempt::Second, false, 2), Progress::Pending);
}

#[test]
fn flush_sleeps_out_the_last_frame() {
    let (uart, _) = Uart::<UART0>::new(Ok::<u32, ()>(9600), Irqs).unwrap();
    assert_eq!(uart.flush(Attempt::First, true), FlushStep::Done);
    assert_eq!(uart.flush(Attempt::First, false), FlushStep::WaitForFifo);
    assert_eq!(uart.flush(Attempt::Second, true), FlushStep::Done);
    assert_eq!(uart.flush(Attempt::Second, false), FlushStep::Sleep(1250));
    let (fast, _) = Uart::<UART0>::new(Ok::<u32, ()>(115_384), Irqs).unwrap();
    assert_eq!(fast.flush(Attempt::Second, false), FlushStep::Sleep(105));
}

#[test]
fn executor_sleeps_only_without_work() {
    let (mut executor, sctlr) = Executor::new(false, 0x1);
    assert_eq!(sctlr, 0x9);
    assert_eq!(executor.after_poll(), Idle::Sleep);
    assert_eq!(executor.pender(0x9), 0x29);
    assert_eq!(executor.after_poll(), Idle::Poll);
    assert_eq!(executor.after_poll(), Idle::Sleep);
}

#[test]
fn new_executor_keeps_pending_work() {
    let (mut executor, _) = Executor::new(false, 0);
    executor.pender(0);
    let (mut executor, sctlr) = Executor::new(executor.work_pending, 0x20);
    assert_eq!(sctlr, 0x28);
    assert_eq!(executor.after_poll(), Idle::Poll);
}

#[test]
fn executor_runs_its_stages() {
    let (mut executor, _) = Executor::new(false, 0);
    assert_eq!(executor.run(RunStage::Spawn), RunStage::Poll);
    assert_eq!(executor.run(RunStage::Poll), RunStage::Look);
    executor.pender(0);
    assert_eq!(executor.run(RunStage::Look), RunStage::Poll);
    assert_eq!(executor.run(RunStage::Poll), RunStage::Look);
    assert_eq!(executor.run(RunStage::Look), RunStage::Sleep);
    executor.pender(0);
    assert_eq!(executor.run(RunStage::Sleep), RunStage::Poll);
    assert!(executor.work_pending);
}
