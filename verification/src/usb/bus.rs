//! The bus: power, events, and the configuration of endpoints by the host.

use vstd::prelude::*;

use crate::bits;
use crate::chip::Chip;
use crate::pfic::{PficAction, Priority};
use crate::usb::address::{Direction, EndpointAddress, ENDPOINT_COUNT};
use crate::usb::bank;
use crate::usb::bank::Bank;
use crate::usb::chip;
use crate::usb::interrupt;
use crate::usb::register;
use crate::usb::register::{Action, USB_IRQ};
use crate::usb::state;
use crate::usb::state::{DirectionModel, UsbModel, UsbState};
use crate::usb::types::{Event, Unsupported};

verus! {

/// The bit of the main control register that drives a bus reset.
pub const CTRL_BUS_RESET: u8 = 0x04;

/// The mode field of the main control register.
pub const CTRL_MODE_MASK: u8 = 0x30;

/// Mode: device with its pull-up.
pub const CTRL_MODE_DEVICE: u8 = 0x20;

/// Mode: drive a wake-up to the host.
pub const CTRL_MODE_WAKEUP: u8 = 0x30;

/// How long a wake-up is driven, in milliseconds.
pub const WAKEUP_MILLIS: u64 = 2;

/// How often a forced reset spins before it is released.
pub const RESET_SPINS: u32 = 16;

/// USB bus owner.
#[derive(Clone, Copy, Debug, PartialEq, Eq, Structural)]
pub struct Bus {
    pub allocated_in: u8,
    pub allocated_out: u8,
    pub enabled: bool,
}

/// Where the packet memory lies.
#[derive(Clone, Copy, Debug, PartialEq, Eq, Structural)]
pub struct DmaLayout {
    /// Address of the bank of endpoint zero.
    pub control: usize,
    /// Address of the banks of the other endpoints.
    pub endpoints: usize,
}

impl DmaLayout {
    /// Address of the OUT bank of endpoint `index`.
    pub open spec fn address(self, index: int) -> int {
        match bank::spec_bank(index, Direction::Out, Set::empty()) {
            Bank::Control => self.control as int,
            Bank::Endpoint { offset } => self.endpoints + offset,
        }
    }

    /// The DMA engine of `chip` reaches every bank.
    pub open spec fn reachable(self, chip: Chip) -> bool {
        forall|index: int| 0 <= index < ENDPOINT_COUNT ==> chip::dma_address(
            chip,
            #[trigger] self.address(index),
        )
    }

    /// Tells whether the DMA engine of `chip` reaches every bank.
    pub fn is_reachable(&self, chip: Chip) -> (reached: bool)
        ensures
            reached == self.reachable(chip),
    {
        proof {
            assert(self.address(0) == self.control);
            assert(self.address(1) == self.endpoints);
            assert(self.address(2) == self.endpoints + 128);
            assert(self.address(3) == self.endpoints + 256);
        }
        chip::is_dma_address(chip, self.control) && chip::is_dma_address(chip, self.endpoints)
            && chip::is_dma_address(chip, self.endpoints + 128) && chip::is_dma_address(
            chip,
            self.endpoints + 256,
        )
    }
}

/// `value` if `condition` holds, zero otherwise.
pub open spec fn flag(condition: bool, value: u8) -> u8 {
    if condition {
        value
    } else {
        0
    }
}

/// The three endpoint mode bytes: the transmitter and receiver enables of the
/// allocated endpoints.
pub open spec fn mode_bytes(allocated_in: Set<int>, allocated_out: Set<int>) -> Seq<u8> {
    seq![
        (flag(allocated_in.contains(1), 0x40) + flag(allocated_out.contains(1), 0x80)) as u8,
        (flag(allocated_in.contains(2), 0x04) + flag(allocated_out.contains(2), 0x08) + flag(
            allocated_in.contains(3),
            0x40,
        ) + flag(allocated_out.contains(3), 0x80)) as u8,
        0,
    ]
}

fn flag_byte(condition: bool, value: u8) -> (result: u8)
    ensures
        result == flag(condition, value),
{
    if condition {
        value
    } else {
        0
    }
}

/// The three endpoint mode bytes of the allocated endpoints.
pub fn endpoint_mode_bytes(allocated_in: u8, allocated_out: u8) -> (modes: [u8; 3])
    ensures
        modes@ == mode_bytes(bits::set8(allocated_in), bits::set8(allocated_out)),
{
    let first: u8 = flag_byte(bits::has8(allocated_in, 1), 0x40) + flag_byte(
        bits::has8(allocated_out, 1),
        0x80,
    );
    let second: u8 = flag_byte(bits::has8(allocated_in, 2), 0x04) + flag_byte(
        bits::has8(allocated_out, 2),
        0x08,
    ) + flag_byte(bits::has8(allocated_in, 3), 0x40) + flag_byte(
        bits::has8(allocated_out, 3),
        0x80,
    );
    let modes: [u8; 3] = [first, second, 0];
    assert(modes@ =~= mode_bytes(bits::set8(allocated_in), bits::set8(allocated_out)));
    modes
}

/// The writes of the mode registers.
pub open spec fn mode_actions(modes: Seq<u8>) -> Seq<Action> {
    seq![
        Action::Write8 { offset: register::ENDPOINT_MODES, value: modes[0] },
        Action::Write8 { offset: (register::ENDPOINT_MODES + 1) as usize, value: modes[1] },
        Action::Write8 { offset: (register::ENDPOINT_MODES + 2) as usize, value: modes[2] },
    ]
}

/// The writes of the DMA registers of endpoints below `end`.
pub open spec fn dma_actions(chip: Chip, dma: DmaLayout, end: int) -> Seq<Action>
    decreases end,
{
    if end <= 0 {
        Seq::empty()
    } else {
        dma_actions(chip, dma, end - 1).push(
            Action::WriteDma {
                index: (end - 1) as usize,
                word: chip::dma_word(chip, dma.address(end - 1)),
            },
        )
    }
}

/// The effects of enabling the bus after the mode registers are written.
pub open spec fn enable_tail(pins: u16) -> Seq<Action> {
    seq![
        Action::Write8 { offset: register::DEV_AD, value: 0 },
        Action::Write8 { offset: register::CTRL, value: 0x29 },
        Action::WritePins { pins: pins | chip::USB_DP_PULLUP | chip::USB_PINS_ENABLE },
        Action::Write8 { offset: register::INT_FG, value: 0xff },
        Action::Write8 { offset: register::UDEV_CTRL, value: 0x81 },
        Action::Write8 { offset: register::INT_EN, value: 0x07 },
        Action::Pfic(PficAction::SetPriority { irq: USB_IRQ, bits: 0x10 }),
        Action::Pfic(PficAction::Enable { irq: USB_IRQ }),
    ]
}

/// The effects of enabling the bus with these endpoints allocated. The serial
/// engine is stopped first and started again only when the endpoint modes and
/// DMA addresses are in place: stopping it discards them.
pub open spec fn enable_actions(
    chip: Chip,
    dma: DmaLayout,
    pins: u16,
    allocated_in: Set<int>,
    allocated_out: Set<int>,
) -> Seq<Action> {
    seq![Action::Write8 { offset: register::CTRL, value: 0 }] + mode_actions(
        mode_bytes(allocated_in, allocated_out),
    ) + dma_actions(chip, dma, ENDPOINT_COUNT as int) + state::reset_actions(Set::empty(), Set::empty()) + enable_tail(pins)
}

/// The effects of disabling the bus.
pub open spec fn disable_actions() -> Seq<Action> {
    seq![
        Action::Pfic(PficAction::Disable { irq: USB_IRQ }),
        Action::Write8 { offset: register::INT_EN, value: 0 },
        Action::Write8 { offset: register::UDEV_CTRL, value: 0x80 },
        Action::Write8 { offset: register::CTRL, value: 0 },
    ] + state::wake_all_actions()
}

/// The control byte of an endpoint after the host enabled or disabled it. A
/// newly enabled endpoint starts at DATA0, defers IN and accepts OUT; a disabled
/// one stalls.
pub open spec fn control_after_enable(direction: Direction, enabled: bool, control: u8) -> u8 {
    if enabled {
        register::with_response(
            control & !register::toggle(direction),
            direction,
            match direction {
                Direction::In => register::UEP_T_RES_NAK,
                Direction::Out => register::UEP_R_RES_ACK,
            },
        )
    } else {
        register::with_response(control, direction, register::stall(direction))
    }
}

/// The control byte of an endpoint after the host halted it or cleared the halt.
/// Clearing a halt restarts at DATA0. An OUT endpoint whose bank still holds a
/// packet, `pending`, keeps deferring the host.
pub open spec fn control_after_stall(
    direction: Direction,
    stalled: bool,
    pending: bool,
    control: u8,
) -> u8 {
    if stalled {
        register::with_response(control, direction, register::stall(direction))
    } else {
        register::with_response(
            control & !register::toggle(direction),
            direction,
            if direction == Direction::Out && !pending {
                register::UEP_R_RES_ACK
            } else {
                register::nak(direction)
            },
        )
    }
}

impl UsbModel {
    /// After the bus was enabled with these endpoints allocated.
    pub open spec fn after_enable(
        self,
        allocated_in: Set<int>,
        allocated_out: Set<int>,
    ) -> UsbModel {
        let reset = self.reset_endpoints(Set::empty(), Set::empty());
        UsbModel {
            input: DirectionModel { allocated: allocated_in, ..reset.input },
            output: DirectionModel { allocated: allocated_out, ..reset.output },
            ..reset
        }
    }

    /// After the bus was disabled.
    pub open spec fn after_disable(self) -> UsbModel {
        UsbModel {
            input: DirectionModel { enabled: Set::empty(), ..self.input },
            output: DirectionModel { enabled: Set::empty(), ..self.output },
            reset_generation: state::next32(self.reset_generation),
            ..self
        }
    }

    /// After the host enabled or disabled an endpoint.
    pub open spec fn after_set_enabled(
        self,
        direction: Direction,
        index: int,
        enabled: bool,
    ) -> UsbModel {
        self.with_side(direction, self.side(direction).set_enabled(index, enabled))
    }
}

/// The event that the bus task takes next: reset goes first, then suspend,
/// resume and power.
pub open spec fn next_event(events: Set<int>) -> Option<(int, Event)> {
    if events.contains(interrupt::EVENT_RESET as int) {
        Some((interrupt::EVENT_RESET as int, Event::Reset))
    } else if events.contains(interrupt::EVENT_SUSPEND as int) {
        Some((interrupt::EVENT_SUSPEND as int, Event::Suspend))
    } else if events.contains(interrupt::EVENT_RESUME as int) {
        Some((interrupt::EVENT_RESUME as int, Event::Resume))
    } else if events.contains(interrupt::EVENT_POWER as int) {
        Some((interrupt::EVENT_POWER as int, Event::PowerDetected))
    } else {
        None
    }
}

fn configure_endpoint_modes(allocated_in: u8, allocated_out: u8, actions: &mut Vec<Action>)
    ensures
        final(actions)@ == old(actions)@ + mode_actions(
            mode_bytes(bits::set8(allocated_in), bits::set8(allocated_out)),
        ),
{
    let modes = endpoint_mode_bytes(allocated_in, allocated_out);
    let ghost before = actions@;
    actions.push(Action::Write8 { offset: register::ENDPOINT_MODES, value: modes[0] });
    actions.push(Action::Write8 { offset: register::ENDPOINT_MODES + 1, value: modes[1] });
    actions.push(Action::Write8 { offset: register::ENDPOINT_MODES + 2, value: modes[2] });
    assert(actions@ =~= before + mode_actions(modes@));
}

fn configure_dma(chip: Chip, dma: DmaLayout, actions: &mut Vec<Action>)
    requires
        dma.reachable(chip),
    ensures
        final(actions)@ == old(actions)@ + dma_actions(chip, dma, ENDPOINT_COUNT as int),
{
    let ghost before = actions@;
    proof {
        bits::lemma_empty8();
    }
    assert(actions@ =~= before + dma_actions(chip, dma, 0));
    let mut index: usize = 0;
    while index < ENDPOINT_COUNT
        invariant
            index <= ENDPOINT_COUNT,
            dma.reachable(chip),
            bits::set8(0) == Set::<int>::empty(),
            actions@ == before + dma_actions(chip, dma, index as int),
        decreases ENDPOINT_COUNT - index,
    {
        assert(chip::dma_address(chip, dma.address(index as int)));
        let address: usize = match bank::endpoint_bank(index, Direction::Out, 0) {
            Bank::Control => dma.control,
            Bank::Endpoint { offset } => dma.endpoints + offset,
        };
        actions.push(chip::write_endpoint_dma(chip, index, address));
        index = index + 1;
        assert(actions@ =~= before + dma_actions(chip, dma, index as int));
    }
}

impl Bus {
    /// Enables the controller with the allocated endpoints. `pins` is the
    /// present pin configuration.
    pub fn enable(
        &mut self,
        state: &mut UsbState,
        chip: Chip,
        dma: DmaLayout,
        pins: u16,
    ) -> (actions: Vec<Action>)
        requires
            dma.reachable(chip),
        ensures
            *final(self) == (Bus { enabled: true, ..*old(self) }),
            final(state)@ == old(state)@.after_enable(
                bits::set8(old(self).allocated_in),
                bits::set8(old(self).allocated_out),
            ),
            actions@ == enable_actions(
                chip,
                dma,
                pins,
                bits::set8(old(self).allocated_in),
                bits::set8(old(self).allocated_out),
            ),
    {
        let mut actions: Vec<Action> = Vec::new();
        state.input.allocated = self.allocated_in;
        state.output.allocated = self.allocated_out;
        actions.push(Action::Write8 { offset: register::CTRL, value: 0 });
        configure_endpoint_modes(self.allocated_in, self.allocated_out, &mut actions);
        configure_dma(chip, dma, &mut actions);
        state.reset_endpoint_state(self.allocated_in, self.allocated_out, false, &mut actions);
        let ghost before = actions@;
        proof {
            register::lemma_constants();
        }
        actions.push(Action::Write8 { offset: register::DEV_AD, value: 0 });
        actions.push(Action::Write8 { offset: register::CTRL, value: 0x20 | 0x08 | 0x01 });
        actions.push(Action::WritePins { pins: chip::enable_usb_pins(pins) });
        actions.push(Action::Write8 { offset: register::INT_FG, value: 0xff });
        actions.push(Action::Write8 { offset: register::UDEV_CTRL, value: 0x80 | 0x01 });
        actions.push(
            Action::Write8 {
                offset: register::INT_EN,
                value: register::UIF_SUSPEND | register::UIF_TRANSFER | register::UIF_BUS_RESET,
            },
        );
        actions.push(
            Action::Pfic(PficAction::SetPriority { irq: USB_IRQ, bits: Priority::P1.bits() }),
        );
        actions.push(Action::Pfic(PficAction::Enable { irq: USB_IRQ }));
        self.enabled = true;
        assert(actions@ =~= before + enable_tail(pins));
        actions
    }

    /// Disables the controller and wakes every task that waits on it.
    pub fn disable(&mut self, state: &mut UsbState) -> (actions: Vec<Action>)
        ensures
            *final(self) == (Bus { enabled: false, ..*old(self) }),
            final(state)@ == old(state)@.after_disable(),
            actions@ == disable_actions(),
    {
        proof {
            bits::lemma_empty8();
        }
        let mut actions: Vec<Action> = Vec::new();
        actions.push(Action::Pfic(PficAction::Disable { irq: USB_IRQ }));
        actions.push(Action::Write8 { offset: register::INT_EN, value: 0 });
        actions.push(Action::Write8 { offset: register::UDEV_CTRL, value: 0x80 });
        actions.push(Action::Write8 { offset: register::CTRL, value: 0 });
        self.enabled = false;
        state.reset_generation = state.reset_generation.wrapping_add(1);
        state.input.enabled = 0;
        state.output.enabled = 0;
        state::wake_all_endpoints(&mut actions);
        assert(actions@ =~= disable_actions());
        actions
    }

    /// Takes the next bus event, if one is pending.
    pub fn poll(&mut self, state: &mut UsbState) -> (event: Option<Event>)
        ensures
            *final(self) == *old(self),
            match next_event(old(state)@.bus_events) {
                Some((number, next)) => {
                    &&& event == Some(next)
                    &&& final(state)@ == (UsbModel {
                        bus_events: old(state)@.bus_events.remove(number),
                        ..old(state)@
                    })
                },
                None => event is None && final(state)@ == old(state)@,
            },
    {
        let events: u8 = state.bus_events;
        if bits::has8(events, interrupt::EVENT_RESET) {
            state.bus_events = bits::remove8(events, interrupt::EVENT_RESET);
            Some(Event::Reset)
        } else if bits::has8(events, interrupt::EVENT_SUSPEND) {
            state.bus_events = bits::remove8(events, interrupt::EVENT_SUSPEND);
            Some(Event::Suspend)
        } else if bits::has8(events, interrupt::EVENT_RESUME) {
            state.bus_events = bits::remove8(events, interrupt::EVENT_RESUME);
            Some(Event::Resume)
        } else if bits::has8(events, interrupt::EVENT_POWER) {
            state.bus_events = bits::remove8(events, interrupt::EVENT_POWER);
            Some(Event::PowerDetected)
        } else {
            None
        }
    }

    /// Enables or disables an endpoint on request of the host. `control` is the
    /// endpoint's control register.
    pub fn endpoint_set_enabled(
        &mut self,
        state: &mut UsbState,
        ep_addr: EndpointAddress,
        enabled: bool,
        control: u8,
    ) -> (actions: Vec<Action>)
        requires
            ep_addr.spec_index() < ENDPOINT_COUNT,
        ensures
            *final(self) == *old(self),
            final(state)@ == old(state)@.after_set_enabled(
                ep_addr.spec_direction(),
                ep_addr.spec_index(),
                enabled,
            ),
            actions@ == seq![
                register::write_control(
                    ep_addr.spec_index(),
                    control_after_enable(ep_addr.spec_direction(), enabled, control),
                ),
                Action::Wake(
                    register::spec_endpoint_waker(ep_addr.spec_direction(), ep_addr.spec_index()),
                ),
            ],
    {
        let index: usize = ep_addr.index();
        let direction = ep_addr.direction();
        let value: u8 = match direction {
            Direction::In => {
                state.input.set_enabled(index, enabled);
                if enabled {
                    register::set_tx(control & !register::UEP_T_TOG, register::UEP_T_RES_NAK)
                } else {
                    register::set_tx(control, register::UEP_T_RES_STALL)
                }
            },
            Direction::Out => {
                state.output.set_enabled(index, enabled);
                if enabled {
                    register::set_rx(control & !register::UEP_R_TOG, register::UEP_R_RES_ACK)
                } else {
                    register::set_rx(control, register::UEP_R_RES_STALL)
                }
            },
        };
        let mut actions: Vec<Action> = Vec::new();
        actions.push(Action::Write8 { offset: register::endpoint_control(index), value });
        actions.push(Action::Wake(register::endpoint_waker(direction, index)));
        assert(actions@ =~= seq![
            register::write_control(
                ep_addr.spec_index(),
                control_after_enable(ep_addr.spec_direction(), enabled, control),
            ),
            Action::Wake(
                register::spec_endpoint_waker(ep_addr.spec_direction(), ep_addr.spec_index()),
            ),
        ]);
        actions
    }

    /// Halts an endpoint or clears its halt. `control` is the endpoint's control
    /// register.
    pub fn endpoint_set_stalled(
        &mut self,
        state: &UsbState,
        ep_addr: EndpointAddress,
        stalled: bool,
        control: u8,
    ) -> (action: Action)
        requires
            ep_addr.spec_direction() == Direction::Out && !stalled ==> ep_addr.spec_index() < 8,
        ensures
            *final(self) == *old(self),
            action == register::write_control(
                ep_addr.spec_index(),
                control_after_stall(
                    ep_addr.spec_direction(),
                    stalled,
                    state@.output.complete.contains(ep_addr.spec_index()),
                    control,
                ),
            ),
    {
        let index: usize = ep_addr.index();
        let value: u8 = match ep_addr.direction() {
            Direction::In => {
                if stalled {
                    register::set_tx(control, register::UEP_T_RES_STALL)
                } else {
                    register::set_tx(control & !register::UEP_T_TOG, register::UEP_T_RES_NAK)
                }
            },
            Direction::Out => {
                if stalled {
                    register::set_rx(control, register::UEP_R_RES_STALL)
                } else if bits::has8(state.output.complete, index) {
                    register::set_rx(control & !register::UEP_R_TOG, register::UEP_R_RES_NAK)
                } else {
                    register::set_rx(control & !register::UEP_R_TOG, register::UEP_R_RES_ACK)
                }
            },
        };
        Action::Write8 { offset: register::endpoint_control(index), value }
    }

    /// Whether an endpoint is halted, by its control register.
    pub fn endpoint_is_stalled(&mut self, ep_addr: EndpointAddress, control: u8) -> (stalled: bool)
        ensures
            *final(self) == *old(self),
            stalled == (register::response(control, ep_addr.spec_direction()) == register::stall(
                ep_addr.spec_direction(),
            )),
    {
        match ep_addr.direction() {
            Direction::In => control & register::UEP_T_RES_MASK == register::UEP_T_RES_STALL,
            Direction::Out => control & register::UEP_R_RES_MASK == register::UEP_R_RES_STALL,
        }
    }

    /// Begins to force a bus reset: the value to write to the main control
    /// register, of which `ctrl` is the present value.
    pub fn begin_force_reset(&mut self, ctrl: u8) -> (value: u8)
        ensures
            *final(self) == *old(self),
            value == ctrl | CTRL_BUS_RESET,
    {
        ctrl | CTRL_BUS_RESET
    }

    /// Ends a forced bus reset.
    pub fn end_force_reset(&mut self, ctrl: u8) -> (value: u8)
        ensures
            *final(self) == *old(self),
            value == ctrl & !CTRL_BUS_RESET,
    {
        ctrl & !CTRL_BUS_RESET
    }

    /// Begins to wake a suspended host: the value to write to the main control
    /// register, of which `ctrl` is the present value. `mis_st` is the
    /// miscellaneous status register. The wake-up is driven for
    /// `WAKEUP_MILLIS`.
    pub fn begin_remote_wakeup(&mut self, mis_st: u8, ctrl: u8) -> (result: Result<
        u8,
        Unsupported,
    >)
        ensures
            *final(self) == *old(self),
            result == (if old(self).enabled && mis_st & register::MIS_SUSPEND != 0 {
                Ok::<u8, Unsupported>((ctrl & !CTRL_MODE_MASK) | CTRL_MODE_WAKEUP)
            } else {
                Err(Unsupported)
            }),
    {
        if !self.enabled || mis_st & register::MIS_SUSPEND == 0 {
            return Err(Unsupported);
        }
        Ok((ctrl & !CTRL_MODE_MASK) | CTRL_MODE_WAKEUP)
    }

    /// Ends a wake-up of the host.
    pub fn end_remote_wakeup(&mut self, ctrl: u8) -> (value: u8)
        ensures
            *final(self) == *old(self),
            value == (ctrl & !CTRL_MODE_MASK) | CTRL_MODE_DEVICE,
    {
        (ctrl & !CTRL_MODE_MASK) | CTRL_MODE_DEVICE
    }
}

} // verus!
