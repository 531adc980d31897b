//! The USBFS interrupt handler.

use vstd::prelude::*;

use crate::bits;
use crate::interrupt::typelevel;
use crate::interrupt::typelevel::Handler;
use crate::usb::address::{Direction, ENDPOINT_COUNT};
use crate::usb::register;
use crate::usb::register::{Action, Wake};
use crate::usb::state;
use crate::usb::state::{UsbModel, UsbState};

verus! {

/// Number of the reset event in the set of pending bus events.
pub const EVENT_RESET: usize = 0;

/// Number of the suspend event.
pub const EVENT_SUSPEND: usize = 1;

/// Number of the resume event.
pub const EVENT_RESUME: usize = 2;

/// Number of the power event.
pub const EVENT_POWER: usize = 3;

/// What the controller showed when the interrupt was taken.
#[derive(Clone, Copy, Debug)]
pub struct InterruptSnapshot {
    /// The latched interrupt flags.
    pub flags: u8,
    /// The status of the transfer that set the transfer flag.
    pub status: u8,
    /// Length of the last received packet.
    pub rx_len: u8,
    /// The miscellaneous status register.
    pub mis_st: u8,
    /// The control register of the endpoint number that `status` names, if it
    /// is one that has a bank; any value otherwise.
    pub control: u8,
    /// The first eight bytes of the bank of endpoint zero.
    pub setup: [u8; 8],
}

/// What a transfer status stands for.
#[derive(Clone, Copy, Debug, PartialEq, Eq, Structural)]
pub enum Transfer {
    /// A SETUP packet for endpoint zero.
    Setup,
    /// A data packet from the host whose data toggle was the expected one.
    Out(usize),
    /// A packet that the host took.
    In(usize),
    /// Nothing to act on.
    Ignored,
}

/// Whether a transfer status marks a SETUP packet.
///
/// The controller leaves the endpoint number of a SETUP status unspecified, so
/// this bit is looked at before the endpoint number is.
pub fn is_setup_status(status: u8) -> (setup: bool)
    ensures
        setup == (status & register::UIS_SETUP_ACT != 0),
{
    status & register::UIS_SETUP_ACT != 0
}

/// What `status` stands for. The setup mark overrides the endpoint number;
/// without it, an endpoint number without a bank is ignored, and so is an OUT
/// packet that repeats the previous one.
pub open spec fn spec_transfer(status: u8) -> Transfer {
    let index = (status & register::ENDPOINT_MASK) as usize;
    let token = status & register::TOKEN_MASK;
    if status & register::UIS_SETUP_ACT != 0 {
        Transfer::Setup
    } else if index >= ENDPOINT_COUNT {
        Transfer::Ignored
    } else if token == register::TOKEN_SETUP {
        Transfer::Setup
    } else if token == register::TOKEN_OUT && status & register::UIS_TOG_OK != 0 {
        Transfer::Out(index)
    } else if token == register::TOKEN_IN {
        Transfer::In(index)
    } else {
        Transfer::Ignored
    }
}

/// Reads a transfer status.
pub fn decode_transfer(status: u8) -> (transfer: Transfer)
    ensures
        transfer == spec_transfer(status),
        transfer matches Transfer::Out(index) ==> index < ENDPOINT_COUNT,
        transfer matches Transfer::In(index) ==> index < ENDPOINT_COUNT,
{
    if is_setup_status(status) {
        return Transfer::Setup;
    }
    let index: usize = (status & register::ENDPOINT_MASK) as usize;
    if index >= ENDPOINT_COUNT {
        return Transfer::Ignored;
    }
    let token: u8 = status & register::TOKEN_MASK;
    if token == register::TOKEN_SETUP {
        Transfer::Setup
    } else if token == register::TOKEN_OUT {
        if status & register::UIS_TOG_OK != 0 {
            Transfer::Out(index)
        } else {
            Transfer::Ignored
        }
    } else if token == register::TOKEN_IN {
        Transfer::In(index)
    } else {
        Transfer::Ignored
    }
}

/// The control byte of endpoint zero between a SETUP packet and the stage that
/// follows it: both toggles at DATA1, both directions deferring the host.
pub open spec fn setup_control() -> u8 {
    0xca
}

/// The control byte of endpoint `index` after it received a packet. Endpoint
/// zero has no automatic toggle, so its toggle is advanced; any other endpoint
/// defers the host until its task has copied the packet.
pub open spec fn control_after_out(index: int, control: u8) -> u8 {
    if index == 0 {
        control ^ register::UEP_R_TOG
    } else {
        register::with_rx(control, register::UEP_R_RES_NAK)
    }
}

/// The control byte of endpoint `index` after the host took a packet.
pub open spec fn control_after_in(index: int, control: u8) -> u8 {
    if index == 0 {
        register::with_tx(control ^ register::UEP_T_TOG, register::UEP_T_RES_NAK)
    } else {
        register::with_tx(control, register::UEP_T_RES_NAK)
    }
}

/// The task that a packet of endpoint `index` wakes.
pub open spec fn packet_waker(direction: Direction, index: int) -> Wake {
    if index == 0 {
        Wake::Control
    } else {
        register::spec_endpoint_waker(direction, index)
    }
}

impl UsbModel {
    /// After a SETUP packet: an earlier data or status stage is forgotten, and
    /// the packet is kept apart from the bank that a data packet may overwrite.
    pub open spec fn after_setup(self, packet: Seq<u8>) -> UsbModel {
        UsbModel {
            input: self.input.consume(0),
            output: self.output.consume(0),
            out_lengths: self.out_lengths.update(0, 8),
            setup_pending: true,
            setup_packet: packet,
            ..self
        }
    }

    /// After endpoint `index` received `length` bytes.
    pub open spec fn after_out(self, index: int, length: u8) -> UsbModel {
        UsbModel {
            output: self.output.completed(index),
            out_lengths: self.out_lengths.update(index, length),
            ..self
        }
    }

    /// After the host took a packet of endpoint `index`.
    pub open spec fn after_in(self, index: int) -> UsbModel {
        UsbModel { input: self.input.completed(index), ..self }
    }

    /// After the transfer with `snapshot`'s status.
    pub open spec fn after_transfer(self, snapshot: InterruptSnapshot) -> UsbModel {
        match spec_transfer(snapshot.status) {
            Transfer::Setup => self.after_setup(snapshot.setup@),
            Transfer::Out(index) => self.after_out(index as int, snapshot.rx_len),
            Transfer::In(index) => self.after_in(index as int),
            Transfer::Ignored => self,
        }
    }

    /// After a bus reset.
    pub open spec fn after_bus_reset(self) -> UsbModel {
        UsbModel {
            reset_generation: state::next32(self.reset_generation),
            bus_events: self.bus_events.insert(EVENT_RESET as int),
            ..self.reset_endpoints(Set::empty(), Set::empty())
        }
    }

    /// After the bus was suspended or resumed.
    pub open spec fn after_suspend(self, mis_st: u8) -> UsbModel {
        UsbModel {
            bus_events: self.bus_events.insert(
                if mis_st & register::MIS_SUSPEND != 0 {
                    EVENT_SUSPEND as int
                } else {
                    EVENT_RESUME as int
                },
            ),
            ..self
        }
    }

    /// After the interrupt that showed `snapshot`. One cause is handled per
    /// entry: a transfer goes first, so that its status is never read after a
    /// reset has started the endpoints over; a reset goes before a suspend.
    pub open spec fn after_interrupt(self, snapshot: InterruptSnapshot) -> UsbModel {
        if snapshot.flags & register::UIF_TRANSFER != 0 {
            self.after_transfer(snapshot)
        } else if snapshot.flags & register::UIF_BUS_RESET != 0 {
            self.after_bus_reset()
        } else if snapshot.flags & register::UIF_SUSPEND != 0 {
            self.after_suspend(snapshot.mis_st)
        } else {
            self
        }
    }
}

/// The effects of the transfer with `snapshot`'s status.
pub open spec fn transfer_actions(snapshot: InterruptSnapshot) -> Seq<Action> {
    match spec_transfer(snapshot.status) {
        Transfer::Setup => seq![
            register::write_control(0, setup_control()),
            Action::Wake(Wake::Control),
        ],
        Transfer::Out(index) => seq![
            register::write_control(index as int, control_after_out(index as int, snapshot.control)),
            Action::Wake(packet_waker(Direction::Out, index as int)),
        ],
        Transfer::In(index) => seq![
            register::write_control(index as int, control_after_in(index as int, snapshot.control)),
            Action::Wake(packet_waker(Direction::In, index as int)),
        ],
        Transfer::Ignored => Seq::empty(),
    }
}

/// The action that acknowledges the interrupt flag `flag` and no other.
pub open spec fn acknowledge(flag: u8) -> Action {
    Action::Write8 { offset: register::INT_FG, value: flag }
}

/// The effects of the interrupt that showed `snapshot`.
pub open spec fn interrupt_actions(snapshot: InterruptSnapshot) -> Seq<Action> {
    if snapshot.flags & register::UIF_TRANSFER != 0 {
        transfer_actions(snapshot).push(acknowledge(register::UIF_TRANSFER))
    } else if snapshot.flags & register::UIF_BUS_RESET != 0 {
        (state::reset_actions(Set::empty(), Set::empty()).push(
            acknowledge(register::UIF_BUS_RESET),
        ) + state::wake_all_actions()).push(Action::Wake(Wake::Bus))
    } else if snapshot.flags & register::UIF_SUSPEND != 0 {
        seq![acknowledge(register::UIF_SUSPEND), Action::Wake(Wake::Bus)]
    } else {
        Seq::empty()
    }
}

impl UsbState {
    fn on_setup(&mut self, packet: [u8; 8], actions: &mut Vec<Action>)
        ensures
            final(self)@ == old(self)@.after_setup(packet@),
            final(actions)@ == old(actions)@ + seq![
                register::write_control(0, setup_control()),
                Action::Wake(Wake::Control),
            ],
    {
        proof {
            register::lemma_constants();
        }
        self.input.consume(0);
        self.output.consume(0);
        self.setup_packet = packet;
        self.setup_pending = true;
        self.out_lengths[0] = 8;
        let control: u8 = register::UEP_R_TOG | register::UEP_T_TOG | register::UEP_R_RES_NAK
            | register::UEP_T_RES_NAK;
        actions.push(Action::Write8 { offset: register::endpoint_control(0), value: control });
        actions.push(Action::Wake(Wake::Control));
        assert(self@.out_lengths =~= old(self)@.after_setup(packet@).out_lengths);
        assert(actions@ =~= old(actions)@ + seq![
            register::write_control(0, setup_control()),
            Action::Wake(Wake::Control),
        ]);
    }

    fn on_out(&mut self, index: usize, length: u8, control: u8, actions: &mut Vec<Action>)
        requires
            index < ENDPOINT_COUNT,
        ensures
            final(self)@ == old(self)@.after_out(index as int, length),
            final(actions)@ == old(actions)@ + seq![
                register::write_control(index as int, control_after_out(index as int, control)),
                Action::Wake(packet_waker(Direction::Out, index as int)),
            ],
    {
        let value: u8 = if index == 0 {
            control ^ register::UEP_R_TOG
        } else {
            register::set_rx(control, register::UEP_R_RES_NAK)
        };
        actions.push(Action::Write8 { offset: register::endpoint_control(index), value });
        self.out_lengths[index] = length;
        self.output.completed(index);
        if index == 0 {
            actions.push(Action::Wake(Wake::Control));
        } else {
            actions.push(Action::Wake(Wake::Out(index)));
        }
        assert(self@.out_lengths =~= old(self)@.after_out(index as int, length).out_lengths);
        assert(actions@ =~= old(actions)@ + seq![
            register::write_control(index as int, control_after_out(index as int, control)),
            Action::Wake(packet_waker(Direction::Out, index as int)),
        ]);
    }

    fn on_in(&mut self, index: usize, control: u8, actions: &mut Vec<Action>)
        requires
            index < ENDPOINT_COUNT,
        ensures
            final(self)@ == old(self)@.after_in(index as int),
            final(actions)@ == old(actions)@ + seq![
                register::write_control(index as int, control_after_in(index as int, control)),
                Action::Wake(packet_waker(Direction::In, index as int)),
            ],
    {
        let toggled: u8 = if index == 0 {
            control ^ register::UEP_T_TOG
        } else {
            control
        };
        let value: u8 = register::set_tx(toggled, register::UEP_T_RES_NAK);
        actions.push(Action::Write8 { offset: register::endpoint_control(index), value });
        self.input.completed(index);
        if index == 0 {
            actions.push(Action::Wake(Wake::Control));
        } else {
            actions.push(Action::Wake(Wake::In(index)));
        }
        assert(actions@ =~= old(actions)@ + seq![
            register::write_control(index as int, control_after_in(index as int, control)),
            Action::Wake(packet_waker(Direction::In, index as int)),
        ]);
    }
}

/// Handles one entry of the USBFS interrupt.
pub fn usb_interrupt(state: &mut UsbState, snapshot: &InterruptSnapshot) -> (actions: Vec<Action>)
    ensures
        final(state)@ == old(state)@.after_interrupt(*snapshot),
        actions@ == interrupt_actions(*snapshot),
{
    let mut actions: Vec<Action> = Vec::new();
    if snapshot.flags & register::UIF_TRANSFER != 0 {
        match decode_transfer(snapshot.status) {
            Transfer::Setup => state.on_setup(snapshot.setup, &mut actions),
            Transfer::Out(index) => {
                state.on_out(index, snapshot.rx_len, snapshot.control, &mut actions)
            },
            Transfer::In(index) => state.on_in(index, snapshot.control, &mut actions),
            Transfer::Ignored => {},
        }
        assert(actions@ =~= transfer_actions(*snapshot));
        actions.push(Action::Write8 { offset: register::INT_FG, value: register::UIF_TRANSFER });
    } else if snapshot.flags & register::UIF_BUS_RESET != 0 {
        state.reset_generation = state.reset_generation.wrapping_add(1);
        let allocated_in: u8 = state.input.allocated;
        let allocated_out: u8 = state.output.allocated;
        state.reset_endpoint_state(allocated_in, allocated_out, false, &mut actions);
        state.bus_events = bits::insert8(state.bus_events, EVENT_RESET);
        actions.push(Action::Write8 { offset: register::INT_FG, value: register::UIF_BUS_RESET });
        state::wake_all_endpoints(&mut actions);
        actions.push(Action::Wake(Wake::Bus));
        assert(actions@ =~= interrupt_actions(*snapshot));
    } else if snapshot.flags & register::UIF_SUSPEND != 0 {
        let event: usize = if snapshot.mis_st & register::MIS_SUSPEND != 0 {
            EVENT_SUSPEND
        } else {
            EVENT_RESUME
        };
        state.bus_events = bits::insert8(state.bus_events, event);
        actions.push(Action::Write8 { offset: register::INT_FG, value: register::UIF_SUSPEND });
        actions.push(Action::Wake(Wake::Bus));
        assert(actions@ =~= interrupt_actions(*snapshot));
    }
    actions
}

/// The handler of the USBFS interrupt.
pub struct InterruptHandler;

impl Handler<typelevel::USB> for InterruptHandler {
    type State = UsbState;

    type Snapshot = InterruptSnapshot;

    type Effect = Action;

    fn on_interrupt(state: &mut UsbState, snapshot: &InterruptSnapshot) -> (actions: Vec<Action>)
        ensures
            final(state)@ == old(state)@.after_interrupt(*snapshot),
            actions@ == interrupt_actions(*snapshot),
    {
        usb_interrupt(state, snapshot)
    }
}

} // verus!
