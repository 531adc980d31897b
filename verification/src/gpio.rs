//! GPIO inputs with interrupt-backed waits.

use vstd::prelude::*;

use crate::attempt::Attempt;
use crate::bits;
use crate::interrupt::typelevel;
use crate::interrupt::typelevel::Interrupt;
use crate::pfic::{PficAction, Priority};

pub mod laws;

verus! {

/// Number of pin events: 16 of port A and 24 of port B.
pub const GPIO_PIN_COUNT: usize = 40;

/// The bit of the pin function register that moves the channels of PB8 and PB9
/// to PB22 and PB23.
pub const PIN_INTX: u16 = 0x2000;

/// When a pin interrupts.
#[derive(Clone, Copy, Debug, PartialEq, Eq, Structural)]
pub enum Trigger {
    LowLevel,
    HighLevel,
    FallingEdge,
    RisingEdge,
}

/// Registers of a port and of the pin functions, as they were read.
#[derive(Clone, Copy, Debug)]
pub struct GpioRegisters {
    /// The pin function register.
    pub pin_alternate: u16,
    /// Output levels of the port.
    pub out: u32,
    /// Channels of the port that interrupt on an edge.
    pub int_mode: u16,
    /// Channels of the port that may interrupt.
    pub int_en: u16,
}

/// One effect on the hardware or on the scheduler. A list of actions is
/// performed from first to last.
#[derive(Clone, Copy, Debug, PartialEq, Eq, Structural)]
pub enum GpioAction {
    /// Write the pin function register.
    WritePinAlternate(u16),
    /// Write the output levels of a port.
    WriteOut { port: u8, levels: u32 },
    /// Clear output levels of a port.
    WriteClear { port: u8, levels: u32 },
    /// Write the edge channels of a port.
    WriteIntMode { port: u8, channels: u16 },
    /// Acknowledge the flags of channels of a port.
    WriteIntFlags { port: u8, channels: u16 },
    /// Write the enabled channels of a port.
    WriteIntEnable { port: u8, channels: u16 },
    /// Ask the interrupt controller.
    Pfic(PficAction),
    /// Wake the task that waits for the pin event of this index.
    Wake(usize),
}

/// Whether a port has a pin of this number: PA0 to PA15, PB0 to PB23.
pub open spec fn is_pin(port: u8, number: u8) -> bool {
    port == 0 && number < 16 || port == 1 && number < 24
}

/// Whether a pin has an interrupt channel.
pub open spec fn has_channel(port: u8, number: u8) -> bool {
    ||| (port == 0 || port == 1) && number <= 15
    ||| port == 1 && (number == 22 || number == 23)
}

/// The channel of a pin in its port. PB22 and PB23 use those of PB8 and PB9.
pub open spec fn channel(number: u8) -> int {
    if number >= 22 {
        number - 14
    } else {
        number as int
    }
}

/// The event of a pin.
pub open spec fn spec_event_index(port: u8, number: u8) -> int {
    if port == 0 {
        number as int
    } else {
        16 + number
    }
}

/// The event that a flag of channel `bit` of `port` stands for.
pub open spec fn event_of(port: u8, bit: int, remapped: bool) -> int {
    if port == 0 {
        bit
    } else if remapped && (bit == 8 || bit == 9) {
        16 + bit + 14
    } else {
        16 + bit
    }
}

/// Tells whether a pin has an interrupt channel.
pub fn is_interrupt_pin(port: u8, number: u8) -> (found: bool)
    ensures
        found == has_channel(port, number),
{
    match port {
        0 => number <= 15,
        1 => number <= 15 || number == 22 || number == 23,
        _ => false,
    }
}

/// The event of a pin.
pub fn event_index(port: u8, number: u8) -> (index: usize)
    requires
        port == 0 || port == 1,
    ensures
        index == spec_event_index(port, number),
{
    if port == 0 {
        number as usize
    } else {
        16 + number as usize
    }
}

/// The mask of a pin's channel.
pub fn interrupt_mask(port: u8, number: u8) -> (mask: u16)
    requires
        has_channel(port, number),
    ensures
        mask == 1u16 << (channel(number) as u16),
        bits::set16(mask) == Set::<int>::empty().insert(channel(number)),
{
    proof {
        bits::lemma_single16(channel(number));
    }
    if number <= 15 {
        1u16 << (number as u16)
    } else {
        1u16 << ((number - 14) as u16)
    }
}

/// The pin function register with the channels 8 and 9 at the pin `number`.
pub open spec fn remap(number: u8, pin_alternate: u16) -> u16 {
    if number >= 22 {
        pin_alternate | PIN_INTX
    } else {
        pin_alternate & !PIN_INTX
    }
}

/// Whether the pin shares its channel with another pin.
pub open spec fn is_shared(port: u8, number: u8) -> bool {
    port == 1 && (number == 8 || number == 9 || number == 22 || number == 23)
}

/// The interrupt number of a port.
pub open spec fn port_irq(port: u8) -> u8 {
    if port == 0 {
        17
    } else {
        18
    }
}

/// Whether the trigger is an edge.
pub open spec fn is_edge(trigger: Trigger) -> bool {
    trigger == Trigger::FallingEdge || trigger == Trigger::RisingEdge
}

/// Whether the trigger is a high level or an edge towards it.
pub open spec fn is_active_high(trigger: Trigger) -> bool {
    trigger == Trigger::HighLevel || trigger == Trigger::RisingEdge
}

/// The effects of letting a pin interrupt: its channel is routed to it, the
/// polarity and the mode are set, an old flag is cleared, and only then is the
/// channel enabled.
pub open spec fn configure_actions(
    port: u8,
    number: u8,
    trigger: Trigger,
    registers: GpioRegisters,
) -> Seq<GpioAction> {
    let mask = 1u16 << (channel(number) as u16);
    let pin = 1u32 << (number as u32);
    let routing = if is_shared(port, number) {
        seq![GpioAction::WritePinAlternate(remap(number, registers.pin_alternate))]
    } else {
        Seq::empty()
    };
    routing + seq![
        if is_active_high(trigger) {
            GpioAction::WriteOut { port, levels: registers.out | pin }
        } else {
            GpioAction::WriteClear { port, levels: pin }
        },
        GpioAction::WriteIntMode {
            port,
            channels: if is_edge(trigger) {
                registers.int_mode | mask
            } else {
                registers.int_mode & !mask
            },
        },
        GpioAction::WriteIntFlags { port, channels: mask },
        GpioAction::WriteIntEnable { port, channels: registers.int_en | mask },
        GpioAction::Pfic(PficAction::SetPriority { irq: port_irq(port), bits: 0xe0 }),
        GpioAction::Pfic(PficAction::Enable { irq: port_irq(port) }),
    ]
}

/// Lets a pin interrupt on `trigger`; `registers` are those of its port.
pub fn configure_interrupt(
    port: u8,
    number: u8,
    trigger: Trigger,
    registers: &GpioRegisters,
) -> (actions: Vec<GpioAction>)
    requires
        has_channel(port, number),
    ensures
        actions@ == configure_actions(port, number, trigger, *registers),
{
    let mut actions: Vec<GpioAction> = Vec::new();
    let pin: u32 = 1u32 << (number as u32);
    let mask: u16 = interrupt_mask(port, number);
    let edge = match trigger {
        Trigger::FallingEdge | Trigger::RisingEdge => true,
        _ => false,
    };
    let active_high = match trigger {
        Trigger::HighLevel | Trigger::RisingEdge => true,
        _ => false,
    };
    if port == 1 && (number == 8 || number == 9 || number == 22 || number == 23) {
        let value: u16 = if number >= 22 {
            registers.pin_alternate | PIN_INTX
        } else {
            registers.pin_alternate & !PIN_INTX
        };
        actions.push(GpioAction::WritePinAlternate(value));
    }
    if active_high {
        actions.push(GpioAction::WriteOut { port, levels: registers.out | pin });
    } else {
        actions.push(GpioAction::WriteClear { port, levels: pin });
    }
    let int_mode: u16 = if edge {
        registers.int_mode | mask
    } else {
        registers.int_mode & !mask
    };
    actions.push(GpioAction::WriteIntMode { port, channels: int_mode });
    actions.push(GpioAction::WriteIntFlags { port, channels: mask });
    actions.push(GpioAction::WriteIntEnable { port, channels: registers.int_en | mask });
    let irq: u8 = if port == 0 {
        typelevel::GPIOA::irq_number()
    } else {
        typelevel::GPIOB::irq_number()
    };
    actions.push(GpioAction::Pfic(PficAction::SetPriority { irq, bits: Priority::P14.bits() }));
    actions.push(GpioAction::Pfic(PficAction::Enable { irq }));
    assert(actions@ =~= configure_actions(port, number, trigger, *registers));
    actions
}

/// Keeps a pin from interrupting; `int_en` are the enabled channels of its port.
pub fn disable_interrupt(port: u8, number: u8, int_en: u16) -> (action: GpioAction)
    requires
        has_channel(port, number),
    ensures
        action == (GpioAction::WriteIntEnable {
            port,
            channels: int_en & !(1u16 << (channel(number) as u16)),
        }),
{
    GpioAction::WriteIntEnable { port, channels: int_en & !interrupt_mask(port, number) }
}

/// Pin events that no task has taken yet.
pub struct GpioState {
    pub events: [bool; GPIO_PIN_COUNT],
}

impl View for GpioState {
    type V = Seq<bool>;

    open spec fn view(&self) -> Seq<bool> {
        self.events@
    }
}

/// Whether the flags of a port signal event `index`.
pub open spec fn is_signalled(port: u8, flags: u16, remapped: bool, index: int) -> bool {
    exists|bit: int| #[trigger]
        bits::set16(flags).contains(bit) && event_of(port, bit, remapped) == index
}

/// The events after an interrupt with these flags.
pub open spec fn after_flags(
    events: Seq<bool>,
    port: u8,
    flags: u16,
    remapped: bool,
) -> Seq<bool> {
    Seq::new(
        events.len(),
        |index: int| events[index] || is_signalled(port, flags, remapped, index),
    )
}

/// The wake-ups of the flags below bit `end`.
pub open spec fn wake_actions(port: u8, flags: u16, remapped: bool, end: int) -> Seq<GpioAction>
    decreases end,
{
    if end <= 0 {
        Seq::empty()
    } else if bits::set16(flags).contains(end - 1) {
        wake_actions(port, flags, remapped, end - 1).push(
            GpioAction::Wake(event_of(port, end - 1, remapped) as usize),
        )
    } else {
        wake_actions(port, flags, remapped, end - 1)
    }
}

/// The effects of an interrupt: exactly the flags that were seen are
/// acknowledged, and the task of each is woken.
pub open spec fn flag_actions(port: u8, flags: u16, remapped: bool) -> Seq<GpioAction> {
    seq![GpioAction::WriteIntFlags { port, channels: flags }] + wake_actions(
        port,
        flags,
        remapped,
        16,
    )
}

impl GpioState {
    /// No event has come.
    pub fn new() -> (state: GpioState)
        ensures
            state@.len() == GPIO_PIN_COUNT,
            forall|index: int| 0 <= index < GPIO_PIN_COUNT ==> !#[trigger] state@[index],
    {
        GpioState { events: [false;GPIO_PIN_COUNT] }
    }

    fn signal(&mut self, index: usize, actions: &mut Vec<GpioAction>)
        requires
            index < GPIO_PIN_COUNT,
        ensures
            final(self)@ == old(self)@.update(index as int, true),
            final(actions)@ == old(actions)@.push(GpioAction::Wake(index)),
    {
        self.events[index] = true;
        actions.push(GpioAction::Wake(index));
    }

    fn handle_flags(&mut self, port: u8, flags: u16, remapped: bool) -> (actions: Vec<GpioAction>)
        requires
            port == 0 || port == 1,
        ensures
            final(self)@ == after_flags(old(self)@, port, flags, remapped),
            actions@ == flag_actions(port, flags, remapped),
    {
        let ghost before = self@;
        let mut actions: Vec<GpioAction> = Vec::new();
        actions.push(GpioAction::WriteIntFlags { port, channels: flags });
        let ghost head = actions@;
        assert(actions@ =~= head + wake_actions(port, flags, remapped, 0));
        let mut bit: usize = 0;
        while bit < 16
            invariant
                bit <= 16,
                port == 0 || port == 1,
                before.len() == GPIO_PIN_COUNT,
                actions@ == head + wake_actions(port, flags, remapped, bit as int),
                self@.len() == GPIO_PIN_COUNT,
                forall|index: int|
                    0 <= index < GPIO_PIN_COUNT ==> (#[trigger] self@[index] <==> before[index]
                        || exists|b: int| #[trigger]
                        bits::set16(flags).contains(b) && b < bit && event_of(port, b, remapped)
                            == index),
            decreases 16 - bit,
        {
            if bits::has16(flags, bit) {
                let pin: usize = if port == 1 && remapped && (bit == 8 || bit == 9) {
                    bit + 14
                } else {
                    bit
                };
                let index: usize = if port == 0 {
                    pin
                } else {
                    16 + pin
                };
                assert(index == event_of(port, bit as int, remapped));
                self.signal(index, &mut actions);
            }
            bit = bit + 1;
            assert(actions@ =~= head + wake_actions(port, flags, remapped, bit as int));
        }
        assert(self@ =~= after_flags(before, port, flags, remapped));
        assert(actions@ =~= flag_actions(port, flags, remapped));
        actions
    }

    /// Handles the interrupt of port A, whose flags are `flags`.
    pub fn handle_gpioa_interrupt(&mut self, flags: u16) -> (actions: Vec<GpioAction>)
        ensures
            final(self)@ == after_flags(old(self)@, 0, flags, false),
            actions@ == flag_actions(0, flags, false),
    {
        self.handle_flags(0, flags, false)
    }

    /// Handles the interrupt of port B, whose flags are `flags`. `pin_alternate`
    /// is the pin function register.
    pub fn handle_gpiob_interrupt(&mut self, flags: u16, pin_alternate: u16) -> (actions: Vec<
        GpioAction,
    >)
        ensures
            final(self)@ == after_flags(old(self)@, 1, flags, pin_alternate & PIN_INTX != 0),
            actions@ == flag_actions(1, flags, pin_alternate & PIN_INTX != 0),
    {
        self.handle_flags(1, flags, pin_alternate & PIN_INTX != 0)
    }
}

/// What a poll of a wait does next.
#[derive(Clone, Copy, Debug, PartialEq, Eq, Structural)]
pub enum WaitProgress {
    /// The wait is over.
    Ready,
    /// Register the task to be woken for the pin event of this index, and make
    /// the second attempt.
    Register(usize),
    /// Sleep until woken.
    Pending,
}

/// A wait for a pin's interrupt. Whoever drops the wait calls `release`.
#[derive(Clone, Copy, Debug, PartialEq, Eq, Structural)]
pub struct WaitForInterrupt {
    pub port: u8,
    pub number: u8,
    pub index: usize,
}

impl WaitForInterrupt {
    /// The pin has a channel, and the event is its own.
    pub open spec fn wf(self) -> bool {
        has_channel(self.port, self.number) && self.index == spec_event_index(
            self.port,
            self.number,
        )
    }

    /// Begins to wait: an old event is forgotten and the pin may interrupt.
    pub fn new(
        state: &mut GpioState,
        port: u8,
        number: u8,
        trigger: Trigger,
        registers: &GpioRegisters,
    ) -> (result: (WaitForInterrupt, Vec<GpioAction>))
        requires
            has_channel(port, number),
        ensures
            result.0.wf(),
            result.0.port == port,
            result.0.number == number,
            result.1@ == configure_actions(port, number, trigger, *registers),
            final(state)@ == old(state)@.update(spec_event_index(port, number), false),
    {
        let index: usize = event_index(port, number);
        state.events[index] = false;
        let actions = configure_interrupt(port, number, trigger, registers);
        (WaitForInterrupt { port, number, index }, actions)
    }

    /// What a poll does after a look at the pin's event, which was, or was not,
    /// `signalled`.
    pub open spec fn progress(self, attempt: Attempt, signalled: bool) -> WaitProgress {
        if signalled {
            WaitProgress::Ready
        } else if attempt == Attempt::First {
            WaitProgress::Register(self.index)
        } else {
            WaitProgress::Pending
        }
    }

    /// Polls the wait: takes the event of the pin and tells what to do next.
    pub fn poll(&self, attempt: Attempt, state: &mut GpioState) -> (progress: WaitProgress)
        requires
            self.wf(),
        ensures
            progress == self.progress(attempt, old(state)@[self.index as int]),
            final(state)@ == old(state)@.update(self.index as int, false),
    {
        let signalled = state.events[self.index];
        state.events[self.index] = false;
        if signalled {
            WaitProgress::Ready
        } else {
            match attempt {
                Attempt::First => WaitProgress::Register(self.index),
                Attempt::Second => WaitProgress::Pending,
            }
        }
    }

    /// Ends the wait: the pin no longer interrupts. `int_en` are the enabled
    /// channels of its port.
    pub fn release(&self, int_en: u16) -> (action: GpioAction)
        requires
            self.wf(),
        ensures
            action == (GpioAction::WriteIntEnable {
                port: self.port,
                channels: int_en & !(1u16 << (channel(self.number) as u16)),
            }),
    {
        disable_interrupt(self.port, self.number, int_en)
    }
}

/// Digital input with interrupt-backed waits. `P` is the configured pin.
#[derive(Debug)]
pub struct Input<P> {
    pub pin: P,
    pub port: u8,
    pub number: u8,
}

impl<P> Input<P> {
    /// An input of `pin`, which is pin `number` of port `port`.
    pub fn new(pin: P, port: u8, number: u8) -> (input: Input<P>)
        ensures
            input == (Input { pin, port, number }),
    {
        Input { pin, port, number }
    }

    /// The same input with the type of its pin forgotten.
    pub fn degrade<A>(self) -> (input: Input<A>) where P: Into<A>
        ensures
            input.port == self.port,
            input.number == self.number,
            call_ensures(<P as Into<A>>::into, (self.pin,), input.pin),
    {
        Input { pin: self.pin.into(), port: self.port, number: self.number }
    }

    /// Waits for a low level.
    pub fn wait_for_low(&mut self, state: &mut GpioState, registers: &GpioRegisters) -> (result: (
        WaitForInterrupt,
        Vec<GpioAction>,
    ))
        requires
            has_channel(old(self).port, old(self).number),
        ensures
            *final(self) == *old(self),
            result.0.wf(),
            result.0.port == old(self).port,
            result.0.number == old(self).number,
            result.1@ == configure_actions(
                old(self).port,
                old(self).number,
                Trigger::LowLevel,
                *registers,
            ),
            final(state)@ == old(state)@.update(
                spec_event_index(old(self).port, old(self).number),
                false,
            ),
    {
        WaitForInterrupt::new(state, self.port, self.number, Trigger::LowLevel, registers)
    }

    /// Waits for a high level.
    pub fn wait_for_high(&mut self, state: &mut GpioState, registers: &GpioRegisters) -> (result: (
        WaitForInterrupt,
        Vec<GpioAction>,
    ))
        requires
            has_channel(old(self).port, old(self).number),
        ensures
            *final(self) == *old(self),
            result.0.wf(),
            result.0.port == old(self).port,
            result.0.number == old(self).number,
            result.1@ == configure_actions(
                old(self).port,
                old(self).number,
                Trigger::HighLevel,
                *registers,
            ),
            final(state)@ == old(state)@.update(
                spec_event_index(old(self).port, old(self).number),
                false,
            ),
    {
        WaitForInterrupt::new(state, self.port, self.number, Trigger::HighLevel, registers)
    }

    /// Waits for a falling edge.
    pub fn wait_for_falling_edge(&mut self, state: &mut GpioState, registers: &GpioRegisters) -> (result: (
        WaitForInterrupt,
        Vec<GpioAction>,
    ))
        requires
            has_channel(old(self).port, old(self).number),
        ensures
            *final(self) == *old(self),
            result.0.wf(),
            result.0.port == old(self).port,
            result.0.number == old(self).number,
            result.1@ == configure_actions(
                old(self).port,
                old(self).number,
                Trigger::FallingEdge,
                *registers,
            ),
            final(state)@ == old(state)@.update(
                spec_event_index(old(self).port, old(self).number),
                false,
            ),
    {
        WaitForInterrupt::new(state, self.port, self.number, Trigger::FallingEdge, registers)
    }

    /// Waits for a rising edge.
    pub fn wait_for_rising_edge(&mut self, state: &mut GpioState, registers: &GpioRegisters) -> (result: (
        WaitForInterrupt,
        Vec<GpioAction>,
    ))
        requires
            has_channel(old(self).port, old(self).number),
        ensures
            *final(self) == *old(self),
            result.0.wf(),
            result.0.port == old(self).port,
            result.0.number == old(self).number,
            result.1@ == configure_actions(
                old(self).port,
                old(self).number,
                Trigger::RisingEdge,
                *registers,
            ),
            final(state)@ == old(state)@.update(
                spec_event_index(old(self).port, old(self).number),
                false,
            ),
    {
        WaitForInterrupt::new(state, self.port, self.number, Trigger::RisingEdge, registers)
    }
}

} // verus!
