//! What holds of the pins and their waits as a whole.

use vstd::prelude::*;

use crate::attempt::Attempt;
use crate::bits;
use crate::gpio;
use crate::gpio::{
    GpioAction, GpioRegisters, GpioState, Input, Trigger, WaitForInterrupt, WaitProgress,
    GPIO_PIN_COUNT, PIN_INTX,
};
use crate::pfic::PficAction;

verus! {

/// Each pin has an event of its own, whether it has an interrupt channel or not.
pub proof fn events_are_distinct(port_a: u8, number_a: u8, port_b: u8, number_b: u8)
    requires
        gpio::is_pin(port_a, number_a),
        gpio::is_pin(port_b, number_b),
        gpio::spec_event_index(port_a, number_a) == gpio::spec_event_index(port_b, number_b),
    ensures
        port_a == port_b,
        number_a == number_b,
        gpio::spec_event_index(port_a, number_a) < GPIO_PIN_COUNT,
{
}

/// A flag of the pin's channel signals the pin itself, while the channels are
/// routed as they were when the pin was configured: the pin that a task waits
/// for is the one whose event it gets.
pub proof fn configured_pin_is_signalled(port: u8, number: u8, pin_alternate: u16)
    requires
        gpio::has_channel(port, number),
    ensures
        ({
            let routed = if gpio::is_shared(port, number) {
                gpio::remap(number, pin_alternate)
            } else {
                pin_alternate
            };
            gpio::event_of(port, gpio::channel(number), routed & PIN_INTX != 0)
                == gpio::spec_event_index(port, number)
        }),
{
    lemma_remap_bits(pin_alternate);
}

proof fn lemma_remap_bits(p: u16)
    by (bit_vector)
    ensures
        (p | 0x2000u16) & 0x2000u16 != 0,
        (p & !0x2000u16) & 0x2000u16 == 0,
{
}

/// A flag signals one pin only.
pub proof fn flag_signals_one_pin(port: u8, remapped: bool, bit_a: int, bit_b: int)
    requires
        0 <= bit_a < 16,
        0 <= bit_b < 16,
        gpio::event_of(port, bit_a, remapped) == gpio::event_of(port, bit_b, remapped),
    ensures
        bit_a == bit_b,
{
}

/// An interrupt of either port, with the routing that it saw.
pub struct PortInterrupt {
    pub port: u8,
    pub flags: u16,
    pub remapped: bool,
}

/// A step that touches the events.
pub enum EventStep {
    /// A port interrupt was handled.
    Interrupt(PortInterrupt),
    /// The event of this index was taken: a wait for its pin was polled, or began.
    Take(int),
}

impl EventStep {
    /// Whether the step signals the event.
    pub open spec fn signals(self, index: int) -> bool {
        self matches EventStep::Interrupt(interrupt) && gpio::is_signalled(
            interrupt.port,
            interrupt.flags,
            interrupt.remapped,
            index,
        )
    }
}

/// The events after a course of steps.
pub open spec fn after_steps(events: Seq<bool>, course: Seq<EventStep>) -> Seq<bool>
    decreases course.len(),
{
    if course.len() == 0 {
        events
    } else {
        let before = after_steps(events, course.drop_last());
        match course.last() {
            EventStep::Interrupt(interrupt) => gpio::after_flags(
                before,
                interrupt.port,
                interrupt.flags,
                interrupt.remapped,
            ),
            EventStep::Take(index) => if 0 <= index < before.len() {
                before.update(index, false)
            } else {
                before
            },
        }
    }
}

/// Whether a step of the course signals the event and no later one takes it.
pub open spec fn untaken_signal(course: Seq<EventStep>, index: int) -> bool {
    exists|k: int|
        {
            &&& 0 <= k < course.len()
            &&& #[trigger] course[k].signals(index)
            &&& forall|j: int| k < j < course.len() ==> #[trigger] course[j] != EventStep::Take(
                index,
            )
        }
}

proof fn lemma_after_steps(events: Seq<bool>, course: Seq<EventStep>, index: int)
    requires
        0 <= index < events.len(),
        !events[index],
    ensures
        after_steps(events, course).len() == events.len(),
        after_steps(events, course)[index] <==> untaken_signal(course, index),
    decreases course.len(),
{
    if course.len() > 0 {
        let before = course.drop_last();
        let last = course[course.len() - 1];
        lemma_after_steps(events, before, index);
        if untaken_signal(before, index) && last != EventStep::Take(index) {
            let k = choose|k: int|
                {
                    &&& 0 <= k < before.len()
                    &&& #[trigger] before[k].signals(index)
                    &&& forall|j: int|
                        k < j < before.len() ==> #[trigger] before[j] != EventStep::Take(index)
                };
            assert(course[k].signals(index));
            assert forall|j: int| k < j < course.len() implies #[trigger] course[j]
                != EventStep::Take(index) by {
                if j < before.len() {
                    assert(before[j] != EventStep::Take(index));
                }
            }
        }
        if last.signals(index) {
            assert(course[course.len() - 1].signals(index));
        }
        if untaken_signal(course, index) {
            let k = choose|k: int|
                {
                    &&& 0 <= k < course.len()
                    &&& #[trigger] course[k].signals(index)
                    &&& forall|j: int|
                        k < j < course.len() ==> #[trigger] course[j] != EventStep::Take(index)
                };
            if k < before.len() {
                assert(course[course.len() - 1] != EventStep::Take(index));
                assert(before[k].signals(index));
                assert forall|j: int| k < j < before.len() implies #[trigger] before[j]
                    != EventStep::Take(index) by {
                    assert(course[j] != EventStep::Take(index));
                }
            }
        }
    }
}

/// A poll ends a wait exactly when the pin was signalled since the wait began
/// and no earlier poll has reported it: an event from before does not end it, no
/// event since is lost, and none is reported twice.
pub proof fn wait_ends_on_event(
    events: Seq<bool>,
    wait: WaitForInterrupt,
    course: Seq<EventStep>,
    attempt: Attempt,
)
    requires
        wait.wf(),
        events.len() == GPIO_PIN_COUNT,
    ensures
        ({
            let index = wait.index as int;
            let later = after_steps(events.update(index, false), course);
            &&& later[index] <==> untaken_signal(course, index)
            &&& wait.progress(attempt, later[index]) is Ready <==> untaken_signal(course, index)
        }),
{
    events_are_distinct(wait.port, wait.number, wait.port, wait.number);
    lemma_after_steps(events.update(wait.index as int, false), course, wait.index as int);
}

/// A task sleeps only once it is registered: a poll is pending only after an
/// attempt that came after the registration for the pin's own event, and found
/// none.
pub proof fn pending_wait_is_registered(wait: WaitForInterrupt, attempt: Attempt, signalled: bool)
    requires
        wait.progress(attempt, signalled) is Pending,
    ensures
        attempt == Attempt::Second,
        !signalled,
        wait.progress(Attempt::First, signalled) == WaitProgress::Register(wait.index),
{
}

proof fn lemma_wakes(port: u8, flags: u16, remapped: bool, end: int, bit: int)
    requires
        0 <= bit < end,
        bits::set16(flags).contains(bit),
    ensures
        gpio::wake_actions(port, flags, remapped, end).contains(
            GpioAction::Wake(gpio::event_of(port, bit, remapped) as usize),
        ),
    decreases end,
{
    let wakes = gpio::wake_actions(port, flags, remapped, end);
    if bit < end - 1 {
        lemma_wakes(port, flags, remapped, end - 1, bit);
        let before = gpio::wake_actions(port, flags, remapped, end - 1);
        let k = choose|k: int|
            0 <= k < before.len() && before[k] == GpioAction::Wake(
                gpio::event_of(port, bit, remapped) as usize,
            );
        assert(wakes[k] == before[k]);
    } else {
        assert(wakes[wakes.len() - 1] == GpioAction::Wake(
            gpio::event_of(port, bit, remapped) as usize,
        ));
    }
}

/// An interrupt that signals an event wakes the task registered for it.
pub proof fn signalled_pin_is_woken(port: u8, flags: u16, remapped: bool, index: int)
    requires
        gpio::is_signalled(port, flags, remapped, index),
    ensures
        gpio::flag_actions(port, flags, remapped).contains(GpioAction::Wake(index as usize)),
{
    let bit = choose|bit: int| #[trigger]
        bits::set16(flags).contains(bit) && gpio::event_of(port, bit, remapped) == index;
    lemma_wakes(port, flags, remapped, 16, bit);
    let wakes = gpio::wake_actions(port, flags, remapped, 16);
    let k = choose|k: int| 0 <= k < wakes.len() && wakes[k] == GpioAction::Wake(index as usize);
    assert(gpio::flag_actions(port, flags, remapped)[k + 1] == wakes[k]);
}

/// Configuring a pin and ending its wait touch its own channel only: every other
/// channel of the port stays as enabled as it was, and the pin's own is enabled
/// in between and disabled afterwards.
pub proof fn other_channels_are_kept(number: u8, int_en: u16)
    requires
        number <= 15 || number == 22 || number == 23,
    ensures
        ({
            let mask = 1u16 << (gpio::channel(number) as u16);
            let during = int_en | mask;
            let after = during & !mask;
            &&& bits::set16(during) == bits::set16(int_en).insert(gpio::channel(number))
            &&& bits::set16(after) == bits::set16(int_en).remove(gpio::channel(number))
        }),
{
    let mask = 1u16 << (gpio::channel(number) as u16);
    bits::lemma_insert16(int_en, gpio::channel(number));
    bits::lemma_remove16(int_en | mask, gpio::channel(number));
    assert(bits::set16(int_en).insert(gpio::channel(number)).remove(gpio::channel(number))
        =~= bits::set16(int_en).remove(gpio::channel(number)));
}

/// A pin may interrupt only once its polarity and mode are set and an old flag
/// is cleared.
pub proof fn pin_is_enabled_last(
    port: u8,
    number: u8,
    trigger: Trigger,
    registers: GpioRegisters,
    enable: int,
    other: int,
)
    requires
        gpio::has_channel(port, number),
        0 <= enable < gpio::configure_actions(port, number, trigger, registers).len(),
        0 <= other < gpio::configure_actions(port, number, trigger, registers).len(),
        gpio::configure_actions(port, number, trigger, registers)[enable] is WriteIntEnable,
        match gpio::configure_actions(port, number, trigger, registers)[other] {
            GpioAction::WritePinAlternate(_) => true,
            GpioAction::WriteOut { .. } => true,
            GpioAction::WriteClear { .. } => true,
            GpioAction::WriteIntMode { .. } => true,
            GpioAction::WriteIntFlags { .. } => true,
            _ => false,
        },
    ensures
        other < enable,
{
}

/// The pins of port A have the first events, in order, and those of port B follow.
pub proof fn events_are_in_order(port: u8, number: u8, index: usize)
    requires
        call_ensures(gpio::event_index, (port, number), index),
        gpio::is_pin(port, number),
    ensures
        port == 0 ==> index == number && index < 16,
        port == 1 ==> index == 16 + number && 16 <= index < 40,
{
}

/// The interrupt channel of a pin: its own number, but for PB22 and PB23, which
/// use those of PB8 and PB9.
pub open spec fn is_channel_of(channel: int, port: u8, number: u8) -> bool {
    ||| number < 16 && channel == number
    ||| port == 1 && number == 22 && channel == 8
    ||| port == 1 && number == 23 && channel == 9
}

/// Whether bit `bit` of a port's levels is high.
pub open spec fn is_high(levels: u32, bit: u32) -> bool {
    (levels >> bit) & 1 == 1
}

/// Whether the actions let the pin of `channel` interrupt: at an edge or else at a
/// level, towards high or else towards low. Every other channel and pin keeps what
/// `registers` show.
pub open spec fn configures(
    actions: Seq<GpioAction>,
    port: u8,
    number: u8,
    registers: GpioRegisters,
    edge: bool,
    high: bool,
    channel: int,
    bit: u32,
) -> bool {
    let shared = port == 1 && (channel == 8 || channel == 9);
    let start = if shared {
        1int
    } else {
        0
    };
    &&& actions.len() == start + 6
    &&& shared ==> (actions[0] matches GpioAction::WritePinAlternate(routing) && (routing / 8192
        % 2 == 1 <==> number >= 22) && routing / 16384 == registers.pin_alternate / 16384
        && routing % 8192 == registers.pin_alternate % 8192)
    &&& high ==> (actions[start] matches GpioAction::WriteOut { port: p, levels } && p == port
        && is_high(levels, bit) == (bit == number || is_high(registers.out, bit)))
    &&& !high ==> (actions[start] matches GpioAction::WriteClear { port: p, levels } && p == port
        && is_high(levels, bit) == (bit == number))
    &&& actions[start + 1] matches GpioAction::WriteIntMode { port: p, channels } && p == port
        && bits::set16(channels) == (if edge {
        bits::set16(registers.int_mode).insert(channel)
    } else {
        bits::set16(registers.int_mode).remove(channel)
    })
    &&& actions[start + 2] matches GpioAction::WriteIntFlags { port: p, channels } && p == port
        && bits::set16(channels) == Set::<int>::empty().insert(channel)
    &&& actions[start + 3] matches GpioAction::WriteIntEnable { port: p, channels } && p == port
        && bits::set16(channels) == bits::set16(registers.int_en).insert(channel)
    &&& actions[start + 4] == GpioAction::Pfic(
        PficAction::SetPriority { irq: (17 + port) as u8, bits: 224 },
    )
    &&& actions[start + 5] == GpioAction::Pfic(PficAction::Enable { irq: (17 + port) as u8 })
}

proof fn lemma_routing_bits(p: u16)
    by (bit_vector)
    ensures
        (p | 0x2000u16) / 8192 % 2 == 1,
        (p | 0x2000u16) / 16384 == p / 16384,
        (p | 0x2000u16) % 8192 == p % 8192,
        (p & !0x2000u16) / 8192 % 2 == 0,
        (p & !0x2000u16) / 16384 == p / 16384,
        (p & !0x2000u16) % 8192 == p % 8192,
{
}

proof fn lemma_level_bits(out: u32, n: u32, b: u32)
    by (bit_vector)
    requires
        n < 32,
        b < 32,
    ensures
        ((1u32 << n) >> b) & 1 == 1 <==> b == n,
        ((out | (1u32 << n)) >> b) & 1 == 1 <==> (b == n || (out >> b) & 1 == 1),
{
}

/// A pin that is configured for a trigger interrupts at an edge for the two edges
/// and at a level for the two levels, towards high for the high level and the
/// rising edge and towards low for the others, on either port. Only its own
/// channel, level and, where it shares a channel, routing change.
pub proof fn configured_pin_has_its_trigger(
    port: u8,
    number: u8,
    trigger: Trigger,
    registers: GpioRegisters,
    actions: Vec<GpioAction>,
    channel: int,
    bit: u32,
)
    requires
        call_ensures(gpio::configure_interrupt, (port, number, trigger, &registers), actions),
        gpio::has_channel(port, number),
        is_channel_of(channel, port, number),
        bit < 32,
    ensures
        ({
            let edge = match trigger {
                Trigger::LowLevel => false,
                Trigger::HighLevel => false,
                Trigger::FallingEdge => true,
                Trigger::RisingEdge => true,
            };
            let high = match trigger {
                Trigger::LowLevel => false,
                Trigger::HighLevel => true,
                Trigger::FallingEdge => false,
                Trigger::RisingEdge => true,
            };
            configures(actions@, port, number, registers, edge, high, channel, bit)
        }),
{
    lemma_routing_bits(registers.pin_alternate);
    lemma_level_bits(registers.out, number as u32, bit);
    bits::lemma_single16(channel);
    bits::lemma_insert16(registers.int_mode, channel);
    bits::lemma_remove16(registers.int_mode, channel);
    bits::lemma_insert16(registers.int_en, channel);
}

/// Whether a wait of the pin was begun: it has the pin's own event, and the pin is
/// configured for an edge or a level, towards high or low.
pub open spec fn begins(
    result: (WaitForInterrupt, Vec<GpioAction>),
    port: u8,
    number: u8,
    registers: GpioRegisters,
    edge: bool,
    high: bool,
    channel: int,
    bit: u32,
) -> bool {
    &&& configures(result.1@, port, number, registers, edge, high, channel, bit)
    &&& result.0.port == port
    &&& result.0.number == number
    &&& result.0.index == (if port == 0 {
        number as int
    } else {
        16 + number
    })
}

proof fn lemma_begins(
    result: (WaitForInterrupt, Vec<GpioAction>),
    port: u8,
    number: u8,
    trigger: Trigger,
    registers: GpioRegisters,
    channel: int,
    bit: u32,
)
    requires
        gpio::has_channel(port, number),
        is_channel_of(channel, port, number),
        bit < 32,
        result.0.wf(),
        result.0.port == port,
        result.0.number == number,
        result.1@ == gpio::configure_actions(port, number, trigger, registers),
    ensures
        begins(
            result,
            port,
            number,
            registers,
            trigger == Trigger::FallingEdge || trigger == Trigger::RisingEdge,
            trigger == Trigger::HighLevel || trigger == Trigger::RisingEdge,
            channel,
            bit,
        ),
{
    lemma_routing_bits(registers.pin_alternate);
    lemma_level_bits(registers.out, number as u32, bit);
    bits::lemma_single16(channel);
    bits::lemma_insert16(registers.int_mode, channel);
    bits::lemma_remove16(registers.int_mode, channel);
    bits::lemma_insert16(registers.int_en, channel);
}

/// A wait that is begun directly configures the pin for the trigger that it names.
pub proof fn new_wait_has_its_trigger(
    state: &mut GpioState,
    port: u8,
    number: u8,
    trigger: Trigger,
    registers: GpioRegisters,
    result: (WaitForInterrupt, Vec<GpioAction>),
    channel: int,
    bit: u32,
)
    requires
        call_ensures(WaitForInterrupt::new, (state, port, number, trigger, &registers), result),
        gpio::has_channel(port, number),
        is_channel_of(channel, port, number),
        bit < 32,
    ensures
        begins(
            result,
            port,
            number,
            registers,
            trigger == Trigger::FallingEdge || trigger == Trigger::RisingEdge,
            trigger == Trigger::HighLevel || trigger == Trigger::RisingEdge,
            channel,
            bit,
        ),
        final(state)@ == old(state)@.update(result.0.index as int, false),
{
    lemma_begins(result, port, number, trigger, registers, channel, bit);
}

/// A wait for a low level configures the pin for it, and forgets an old event of that
/// pin alone.
pub proof fn wait_for_low_has_its_trigger<P>(
    input: &mut Input<P>,
    state: &mut GpioState,
    registers: GpioRegisters,
    result: (WaitForInterrupt, Vec<GpioAction>),
    channel: int,
    bit: u32,
)
    requires
        call_ensures(Input::<P>::wait_for_low, (input, state, &registers), result),
        gpio::has_channel(old(input).port, old(input).number),
        is_channel_of(channel, old(input).port, old(input).number),
        bit < 32,
    ensures
        begins(result, old(input).port, old(input).number, registers, false, false, channel, bit),
        final(state)@ == old(state)@.update(result.0.index as int, false),
        *final(input) == *old(input),
{
    lemma_begins(result, old(input).port, old(input).number, Trigger::LowLevel, registers, channel, bit);
}

/// A wait for a high level configures the pin for it, and forgets an old event of that
/// pin alone.
pub proof fn wait_for_high_has_its_trigger<P>(
    input: &mut Input<P>,
    state: &mut GpioState,
    registers: GpioRegisters,
    result: (WaitForInterrupt, Vec<GpioAction>),
    channel: int,
    bit: u32,
)
    requires
        call_ensures(Input::<P>::wait_for_high, (input, state, &registers), result),
        gpio::has_channel(old(input).port, old(input).number),
        is_channel_of(channel, old(input).port, old(input).number),
        bit < 32,
    ensures
        begins(result, old(input).port, old(input).number, registers, false, true, channel, bit),
        final(state)@ == old(state)@.update(result.0.index as int, false),
        *final(input) == *old(input),
{
    lemma_begins(result, old(input).port, old(input).number, Trigger::HighLevel, registers, channel, bit);
}

/// A wait for a falling edge configures the pin for it, and forgets an old event of that
/// pin alone.
pub proof fn wait_for_falling_edge_has_its_trigger<P>(
    input: &mut Input<P>,
    state: &mut GpioState,
    registers: GpioRegisters,
    result: (WaitForInterrupt, Vec<GpioAction>),
    channel: int,
    bit: u32,
)
    requires
        call_ensures(Input::<P>::wait_for_falling_edge, (input, state, &registers), result),
        gpio::has_channel(old(input).port, old(input).number),
        is_channel_of(channel, old(input).port, old(input).number),
        bit < 32,
    ensures
        begins(result, old(input).port, old(input).number, registers, true, false, channel, bit),
        final(state)@ == old(state)@.update(result.0.index as int, false),
        *final(input) == *old(input),
{
    lemma_begins(result, old(input).port, old(input).number, Trigger::FallingEdge, registers, channel, bit);
}

/// A wait for a rising edge configures the pin for it, and forgets an old event of that
/// pin alone.
pub proof fn wait_for_rising_edge_has_its_trigger<P>(
    input: &mut Input<P>,
    state: &mut GpioState,
    registers: GpioRegisters,
    result: (WaitForInterrupt, Vec<GpioAction>),
    channel: int,
    bit: u32,
)
    requires
        call_ensures(Input::<P>::wait_for_rising_edge, (input, state, &registers), result),
        gpio::has_channel(old(input).port, old(input).number),
        is_channel_of(channel, old(input).port, old(input).number),
        bit < 32,
    ensures
        begins(result, old(input).port, old(input).number, registers, true, true, channel, bit),
        final(state)@ == old(state)@.update(result.0.index as int, false),
        *final(input) == *old(input),
{
    lemma_begins(result, old(input).port, old(input).number, Trigger::RisingEdge, registers, channel, bit);
}

/// A poll takes the event of its own pin alone. The wait is over exactly if there was
/// one; otherwise the first attempt registers for that event, and the second sleeps.
pub proof fn poll_takes_the_event(
    wait: WaitForInterrupt,
    attempt: Attempt,
    state: &mut GpioState,
    progress: WaitProgress,
    index: int,
)
    requires
        call_ensures(WaitForInterrupt::poll, (&wait, attempt, state), progress),
        wait.wf(),
        old(state)@.len() == 40,
        0 <= index < 40,
    ensures
        progress == WaitProgress::Ready <==> old(state)@[wait.index as int],
        !old(state)@[wait.index as int] && attempt == Attempt::First ==> progress
            == WaitProgress::Register(wait.index),
        !old(state)@[wait.index as int] && attempt == Attempt::Second ==> progress
            == WaitProgress::Pending,
        final(state)@.len() == 40,
        final(state)@[index] == (index != wait.index && old(state)@[index]),
{
}

/// At first no pin has an event.
pub proof fn first_state_has_no_event(state: GpioState, index: int)
    requires
        call_ensures(GpioState::new, (), state),
        0 <= index < 40,
    ensures
        state@.len() == 40,
        !state@[index],
{
}

/// An input names its pin, also when the type of the pin is forgotten.
pub proof fn input_names_its_pin<P>(pin: P, port: u8, number: u8, input: Input<P>)
    requires
        call_ensures(Input::<P>::new, (pin, port, number), input),
    ensures
        input.pin == pin,
        input.port == port,
        input.number == number,
{
}

/// Forgetting the type of the pin keeps its port and number.
pub proof fn degraded_input_names_its_pin<P: Into<A>, A>(input: Input<P>, result: Input<A>)
    requires
        call_ensures(Input::<P>::degrade::<A>, (input,), result),
    ensures
        result.port == input.port,
        result.number == input.number,
{
}

/// Keeping a pin from interrupting takes its channel from the enabled ones of its port
/// and keeps the others.
pub proof fn disabled_pin_loses_its_channel(
    port: u8,
    number: u8,
    int_en: u16,
    action: GpioAction,
    channel: int,
)
    requires
        call_ensures(gpio::disable_interrupt, (port, number, int_en), action),
        gpio::has_channel(port, number),
        is_channel_of(channel, port, number),
    ensures
        action matches GpioAction::WriteIntEnable { port: written, channels } && written == port
            && bits::set16(channels) == bits::set16(int_en).remove(channel),
{
    bits::lemma_remove16(int_en, channel);
}

/// Ending a wait takes the pin's channel from the enabled ones of its port and
/// keeps the others.
pub proof fn ended_wait_disables_its_channel(
    wait: WaitForInterrupt,
    int_en: u16,
    action: GpioAction,
    channel: int,
)
    requires
        call_ensures(WaitForInterrupt::release, (&wait, int_en), action),
        wait.wf(),
        is_channel_of(channel, wait.port, wait.number),
    ensures
        action matches GpioAction::WriteIntEnable { port, channels } && port == wait.port
            && bits::set16(channels) == bits::set16(int_en).remove(channel),
{
    bits::lemma_remove16(int_en, channel);
}

proof fn lemma_woken(port: u8, flags: u16, remapped: bool, end: int, k: int)
    requires
        0 <= k < gpio::wake_actions(port, flags, remapped, end).len(),
        port == 0 || port == 1,
        end <= 16,
    ensures
        exists|bit: int|
            0 <= bit < 16 && #[trigger] bits::set16(flags).contains(bit) && gpio::wake_actions(
                port,
                flags,
                remapped,
                end,
            )[k] == GpioAction::Wake(gpio::event_of(port, bit, remapped) as usize),
    decreases end,
{
    if k < gpio::wake_actions(port, flags, remapped, end - 1).len() {
        lemma_woken(port, flags, remapped, end - 1, k);
    } else {
        assert(bits::set16(flags).contains(end - 1));
    }
}

/// Whether an interrupt with these actions acknowledges the flags that it saw and
/// wakes the task of event `index` exactly if `signalled`.
pub open spec fn serves(
    actions: Seq<GpioAction>,
    port: u8,
    flags: u16,
    index: int,
    signalled: bool,
) -> bool {
    &&& actions.len() > 0
    &&& actions[0] == (GpioAction::WriteIntFlags { port, channels: flags })
    &&& actions.contains(GpioAction::Wake(index as usize)) == signalled
}

proof fn lemma_serves(port: u8, flags: u16, remapped: bool, index: int)
    requires
        port == 0 || port == 1,
        0 <= index < 40,
    ensures
        serves(
            gpio::flag_actions(port, flags, remapped),
            port,
            flags,
            index,
            gpio::is_signalled(port, flags, remapped, index),
        ),
{
    let actions = gpio::flag_actions(port, flags, remapped);
    if gpio::is_signalled(port, flags, remapped, index) {
        signalled_pin_is_woken(port, flags, remapped, index);
    }
    if actions.contains(GpioAction::Wake(index as usize)) {
        let k = choose|k: int|
            0 <= k < actions.len() && actions[k] == GpioAction::Wake(index as usize);
        assert(actions[k] == gpio::wake_actions(port, flags, remapped, 16)[k - 1]);
        lemma_woken(port, flags, remapped, 16, k - 1);
    }
}

/// The interrupt of port A signals the events of the flags that it saw, wakes their
/// tasks, and acknowledges exactly these flags.
pub proof fn port_a_interrupt(
    state: &mut GpioState,
    flags: u16,
    actions: Vec<GpioAction>,
    index: int,
)
    requires
        call_ensures(GpioState::handle_gpioa_interrupt, (state, flags), actions),
        old(state)@.len() == 40,
        0 <= index < 40,
    ensures
        ({
            let signalled = index < 16 && bits::set16(flags).contains(index);
            &&& final(state)@[index] == (old(state)@[index] || signalled)
            &&& serves(actions@, 0, flags, index, signalled)
        }),
{
    lemma_serves(0, flags, false, index);
    if bits::set16(flags).contains(index) {
        assert(gpio::event_of(0, index, false) == index);
    }
}

/// The interrupt of port B signals the events of the flags that it saw, wakes their
/// tasks, and acknowledges exactly these flags. Channels 8 and 9 stand for PB22 and
/// PB23 while the routing bit is set, and for PB8 and PB9 otherwise.
pub proof fn port_b_interrupt(
    state: &mut GpioState,
    flags: u16,
    pin_alternate: u16,
    actions: Vec<GpioAction>,
    index: int,
)
    requires
        call_ensures(GpioState::handle_gpiob_interrupt, (state, flags, pin_alternate), actions),
        old(state)@.len() == 40,
        0 <= index < 40,
    ensures
        ({
            let routed = pin_alternate / 8192 % 2 == 1;
            let number = index - 16;
            let signalled = if number == 22 || number == 23 {
                routed && bits::set16(flags).contains(number - 14)
            } else if number == 8 || number == 9 {
                !routed && bits::set16(flags).contains(number)
            } else {
                0 <= number < 16 && bits::set16(flags).contains(number)
            };
            &&& final(state)@[index] == (old(state)@[index] || signalled)
            &&& serves(actions@, 1, flags, index, signalled)
        }),
{
    let routed = pin_alternate & PIN_INTX != 0;
    lemma_routed_bit(pin_alternate);
    lemma_serves(1, flags, routed, index);
    let number = index - 16;
    let bit = if number >= 22 {
        number - 14
    } else {
        number
    };
    if bits::set16(flags).contains(bit) {
        assert(gpio::event_of(1, bit, routed) == index ==> gpio::is_signalled(
            1,
            flags,
            routed,
            index,
        ));
    }
}

proof fn lemma_routed_bit(p: u16)
    by (bit_vector)
    ensures
        p & 0x2000u16 != 0 <==> p / 8192 % 2 == 1,
{
}

/// The pins that can interrupt are those with a channel: PA0 to PA15, PB0 to PB15,
/// PB22 and PB23.
pub proof fn interrupt_pins_have_channels(port: u8, number: u8, found: bool)
    requires
        call_ensures(gpio::is_interrupt_pin, (port, number), found),
    ensures
        found <==> port <= 1 && (number < 16 || port == 1 && (number == 22 || number == 23)),
{
}

} // verus!
