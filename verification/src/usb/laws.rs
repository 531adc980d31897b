//! What holds of the driver as a whole, over any course of events.

use vstd::prelude::*;

use crate::chip::Chip;
use crate::interrupt::{is_vector_table, Vector, FIRST_EXTERNAL};
use crate::usb::address::{Direction, EndpointAddress, ENDPOINT_COUNT};
use crate::usb::bus;
use crate::usb::control;
use crate::usb::control::{ControlPipe, ControlTransferGuard};
use crate::usb::driver;
use crate::usb::endpoint::{Endpoint, ReadStart, TransferGuard, TransferTicket};
use crate::usb::interrupt;
use crate::usb::interrupt::{InterruptSnapshot, Transfer};
use crate::usb::register;
use crate::usb::register::Action;
use crate::usb::state;
use crate::usb::state::UsbModel;
use crate::usb::transfer::WriteStage;
use crate::usb::types::{EndpointError, EndpointType};

verus! {

/// A step of the shared state: an interrupt, a request of the host, or a task
/// that took something.
pub enum UsbStep {
    Interrupt(InterruptSnapshot),
    SetEnabled(Direction, int, bool),
    BusEnable(Set<int>, Set<int>),
    BusDisable,
    /// The driver was started.
    Start,
    /// A task took the packet of an endpoint, or armed a new one.
    Consume(Direction, int),
    TakeSetup,
    TakeEvent(int),
}

impl UsbStep {
    /// The step names an endpoint that has a bank.
    pub open spec fn wf(self) -> bool {
        match self {
            UsbStep::SetEnabled(_, index, _) => 0 <= index < ENDPOINT_COUNT,
            UsbStep::Consume(_, index) => 0 <= index < ENDPOINT_COUNT,
            _ => true,
        }
    }

    /// Whether the step starts a new reset generation.
    pub open spec fn resets(self) -> bool {
        match self {
            UsbStep::Interrupt(snapshot) => is_bus_reset(snapshot),
            UsbStep::BusDisable => true,
            _ => false,
        }
    }

    /// Whether the step enables or disables endpoint `index` in `direction`.
    pub open spec fn reconfigures(self, direction: Direction, index: int) -> bool {
        self matches UsbStep::SetEnabled(d, i, _) && d == direction && i == index
    }

    /// Whether the step acknowledges a packet of endpoint `index` in `direction`.
    pub open spec fn acknowledges(self, direction: Direction, index: int) -> bool {
        self matches UsbStep::Interrupt(snapshot) && is_packet(snapshot, direction, index)
    }
}

/// Whether the interrupt is handled as a bus reset.
pub open spec fn is_bus_reset(snapshot: InterruptSnapshot) -> bool {
    snapshot.flags & register::UIF_TRANSFER == 0 && snapshot.flags & register::UIF_BUS_RESET != 0
}

/// Whether the interrupt is handled as a SETUP packet.
pub open spec fn is_setup(snapshot: InterruptSnapshot) -> bool {
    snapshot.flags & register::UIF_TRANSFER != 0 && interrupt::spec_transfer(snapshot.status)
        == Transfer::Setup
}

/// Whether the interrupt is handled as a packet of endpoint `index`.
pub open spec fn is_packet(snapshot: InterruptSnapshot, direction: Direction, index: int) -> bool {
    snapshot.flags & register::UIF_TRANSFER != 0 && match direction {
        Direction::In => interrupt::spec_transfer(snapshot.status) == Transfer::In(index as usize),
        Direction::Out => interrupt::spec_transfer(snapshot.status) == Transfer::Out(
            index as usize,
        ),
    }
}

impl UsbModel {
    /// The counters of the four endpoint numbers are there.
    pub open spec fn wf(self) -> bool {
        &&& self.input.completions.len() == ENDPOINT_COUNT
        &&& self.input.enables.len() == ENDPOINT_COUNT
        &&& self.output.completions.len() == ENDPOINT_COUNT
        &&& self.output.enables.len() == ENDPOINT_COUNT
        &&& self.out_lengths.len() == ENDPOINT_COUNT
    }

    /// The state after one step.
    pub open spec fn step(self, step: UsbStep) -> UsbModel {
        match step {
            UsbStep::Interrupt(snapshot) => self.after_interrupt(snapshot),
            UsbStep::SetEnabled(direction, index, enabled) => self.after_set_enabled(
                direction,
                index,
                enabled,
            ),
            UsbStep::BusEnable(allocated_in, allocated_out) => self.after_enable(
                allocated_in,
                allocated_out,
            ),
            UsbStep::BusDisable => self.after_disable(),
            UsbStep::Start => UsbModel {
                bus_events: Set::empty().insert(interrupt::EVENT_POWER as int),
                ..self
            },
            UsbStep::Consume(direction, index) => self.with_side(
                direction,
                self.side(direction).consume(index),
            ),
            UsbStep::TakeSetup => UsbModel { setup_pending: false, ..self },
            UsbStep::TakeEvent(number) => UsbModel {
                bus_events: self.bus_events.remove(number),
                ..self
            },
        }
    }

    /// The state after a course of steps.
    pub open spec fn run(self, steps: Seq<UsbStep>) -> UsbModel
        decreases steps.len(),
    {
        if steps.len() == 0 {
            self
        } else {
            self.run(steps.drop_last()).step(steps.last())
        }
    }
}

/// Every step names an endpoint that has a bank.
pub open spec fn all_wf(steps: Seq<UsbStep>) -> bool {
    forall|k: int| 0 <= k < steps.len() ==> #[trigger] steps[k].wf()
}

/// How many of the steps start a new reset generation.
pub open spec fn count_resets(steps: Seq<UsbStep>) -> nat
    decreases steps.len(),
{
    if steps.len() == 0 {
        0
    } else {
        count_resets(steps.drop_last()) + (if steps.last().resets() {
            1nat
        } else {
            0nat
        })
    }
}

/// How many of the steps enable or disable the endpoint.
pub open spec fn count_reconfigured(
    steps: Seq<UsbStep>,
    direction: Direction,
    index: int,
) -> nat
    decreases steps.len(),
{
    if steps.len() == 0 {
        0
    } else {
        count_reconfigured(steps.drop_last(), direction, index) + (if steps.last().reconfigures(
            direction,
            index,
        ) {
            1nat
        } else {
            0nat
        })
    }
}

/// How many of the steps acknowledge a packet of the endpoint.
pub open spec fn count_acknowledged(
    steps: Seq<UsbStep>,
    direction: Direction,
    index: int,
) -> nat
    decreases steps.len(),
{
    if steps.len() == 0 {
        0
    } else {
        count_acknowledged(steps.drop_last(), direction, index) + (if steps.last().acknowledges(
            direction,
            index,
        ) {
            1nat
        } else {
            0nat
        })
    }
}

/// The generations count exactly what they are meant to count, modulo their
/// width.
proof fn lemma_generations(model: UsbModel, steps: Seq<UsbStep>, direction: Direction, index: int)
    requires
        model.wf(),
        all_wf(steps),
        0 <= index < ENDPOINT_COUNT,
    ensures
        model.run(steps).wf(),
        model.run(steps).reset_generation == (model.reset_generation + count_resets(steps))
            % 0x1_0000_0000,
        model.run(steps).side(direction).enables[index] == (model.side(direction).enables[index]
            + count_reconfigured(steps, direction, index)) % 0x1_0000_0000,
        index != 0 ==> model.run(steps).side(direction).completions[index] == (model.side(
            direction,
        ).completions[index] + count_acknowledged(steps, direction, index)) % 0x100,
    decreases steps.len(),
{
    if steps.len() > 0 {
        let before = steps.drop_last();
        assert(all_wf(before)) by {
            assert forall|k: int| 0 <= k < before.len() implies #[trigger] before[k].wf() by {
                assert(steps[k].wf());
            }
        }
        lemma_generations(model, before, direction, index);
        assert(steps[steps.len() - 1].wf());
        lemma_transfer_index(steps.last());
    }
}

/// A packet status names an endpoint that has a bank.
proof fn lemma_transfer_index(step: UsbStep)
    ensures
        step matches UsbStep::Interrupt(snapshot) ==> match interrupt::spec_transfer(
            snapshot.status,
        ) {
            Transfer::Out(index) => index < ENDPOINT_COUNT,
            Transfer::In(index) => index < ENDPOINT_COUNT,
            _ => true,
        },
{
}

/// A transfer that was requested before the endpoint was reset, disabled or
/// enabled anew never succeeds: whatever else happened, and also if the endpoint
/// is enabled again and packets were acknowledged, polling it reports that the
/// endpoint was disabled.
pub proof fn lifecycle_change_ends_transfer(
    model: UsbModel,
    steps: Seq<UsbStep>,
    guard: TransferGuard,
)
    requires
        model.wf(),
        all_wf(steps),
        guard.wf(),
        guard.ticket.live(model),
        0 < count_resets(steps) < 0x1_0000_0000 || 0 < count_reconfigured(
            steps,
            guard.ticket.direction,
            guard.ticket.index as int,
        ) < 0x1_0000_0000,
    ensures
        guard.outcome(model.run(steps)) == Some(Err::<(), _>(EndpointError::Disabled)),
        forall|control: u8| guard.spec_release(model.run(steps), control) is None,
{
    lemma_generations(model, steps, guard.ticket.direction, guard.ticket.index as int);
}

/// A transfer of an endpoint that stayed configured succeeds exactly when its
/// packet was acknowledged since it was armed.
pub proof fn acknowledged_packet_ends_transfer(
    model: UsbModel,
    steps: Seq<UsbStep>,
    ticket: TransferTicket,
)
    requires
        model.wf(),
        all_wf(steps),
        ticket.wf(),
        ticket.index != 0,
        ticket.live(model),
        count_resets(steps) == 0,
        count_reconfigured(steps, ticket.direction, ticket.index as int) == 0,
        forall|k: int| 0 <= k < steps.len() ==> !(#[trigger] steps[k] is BusEnable),
        count_acknowledged(steps, ticket.direction, ticket.index as int) < 0x100,
    ensures
        ticket.guard(model).outcome(model.run(steps)) == (if count_acknowledged(
            steps,
            ticket.direction,
            ticket.index as int,
        ) > 0 {
            Some(Ok::<(), EndpointError>(()))
        } else {
            None
        }),
{
    lemma_generations(model, steps, ticket.direction, ticket.index as int);
    lemma_stays_enabled(model, steps, ticket.direction, ticket.index as int);
}

proof fn lemma_stays_enabled(model: UsbModel, steps: Seq<UsbStep>, direction: Direction, index: int)
    requires
        count_resets(steps) == 0,
        count_reconfigured(steps, direction, index) == 0,
        forall|k: int| 0 <= k < steps.len() ==> !(#[trigger] steps[k] is BusEnable),
    ensures
        model.run(steps).side(direction).enabled.contains(index) == model.side(
            direction,
        ).enabled.contains(index),
    decreases steps.len(),
{
    if steps.len() > 0 {
        let before = steps.drop_last();
        assert forall|k: int| 0 <= k < before.len() implies !(#[trigger] before[k] is BusEnable) by {
            assert(!(steps[k] is BusEnable));
        }
        lemma_stays_enabled(model, before, direction, index);
        assert(!(steps[steps.len() - 1] is BusEnable));
    }
}

/// A transfer that is dropped right after it was armed leaves no trace: the
/// endpoint defers the host, every other field of its control register is as it
/// was before the transfer.
pub proof fn dropped_transfer_is_undone(model: UsbModel, ticket: TransferTicket, control: u8)
    requires
        ticket.wf(),
        ticket.live(model),
    ensures
        ticket.guard(model).spec_release(
            model,
            register::with_response(control, ticket.direction, register::ack(ticket.direction)),
        ) == Some(
            register::with_response(control, ticket.direction, register::nak(ticket.direction)),
        ),
{
    lemma_rearm(control);
    register::lemma_with_response(control, ticket.direction, register::ack(ticket.direction));
}

/// Dropping an outstanding transfer at any time takes its bank back: afterwards
/// the endpoint does not accept a packet in that direction.
pub proof fn dropped_transfer_closes_endpoint(guard: TransferGuard, model: UsbModel, control: u8)
    requires
        guard.armed,
        guard.outcome(model) is None,
    ensures
        guard.spec_release(model, control) matches Some(value) && register::response(
            value,
            guard.ticket.direction,
        ) != register::ack(guard.ticket.direction),
{
    register::lemma_with_response(
        control,
        guard.ticket.direction,
        register::nak(guard.ticket.direction),
    );
}

/// A packet that arrives before a read is dropped is not lost: dropping the read
/// leaves the register alone, and the next read begins with that packet.
pub proof fn packet_survives_dropped_read(
    model: UsbModel,
    ticket: TransferTicket,
    length: u8,
    control: u8,
)
    requires
        model.wf(),
        ticket.wf(),
        ticket.direction == Direction::Out,
        ticket.index != 0,
        ticket.live(model),
    ensures
        ({
            let later = model.after_out(ticket.index as int, length);
            &&& ticket.guard(model).spec_release(later, control) is None
            &&& ticket.live(later)
            &&& ticket.spec_start_read(later, control) == ReadStart::Completed(length as usize)
        }),
{
}

proof fn lemma_rearm(c: u8)
    by (bit_vector)
    ensures
        (((c & !0x03u8) | 0u8) & !0x03u8) | 0x02u8 == (c & !0x03u8) | 0x02u8,
        (((c & !0x0cu8) | 0u8) & !0x0cu8) | 0x08u8 == (c & !0x0cu8) | 0x08u8,
{
}

/// The receiving side of an endpoint: the shared state and the endpoint's
/// control register.
pub struct Receiver {
    pub model: UsbModel,
    pub control: u8,
}

/// A step that touches the receiving side of an endpoint.
pub enum ReceiverStep {
    /// The endpoint received a packet.
    Received(u8),
    /// Any interrupt that is no packet received by this endpoint.
    Interrupt(InterruptSnapshot),
    /// The host enabled or disabled an endpoint.
    SetEnabled(Direction, int, bool),
    /// The host halted this endpoint or cleared its halt.
    SetStalled(bool),
    /// A task began to read.
    StartRead(TransferTicket),
    /// A task polled its read.
    PollRead(TransferGuard),
    /// A task dropped its read.
    Release(TransferGuard),
    /// Something that keeps the receive response: the transmit side, the other
    /// endpoints, or a data toggle that the controller advanced.
    Keep(u8),
    /// The bus was enabled with these endpoints allocated.
    BusEnable(Set<int>, Set<int>),
    /// The bus was disabled.
    BusDisable,
}

impl Receiver {
    /// The interrupt is a packet of another endpoint or direction, or none.
    pub open spec fn foreign(snapshot: InterruptSnapshot, index: int) -> bool {
        !is_packet(snapshot, Direction::Out, index)
    }

    /// Whether the step can happen here. The controller receives only while the
    /// endpoint accepts. An endpoint with a pending packet is not enabled again
    /// without having been disabled.
    pub open spec fn allows(self, index: int, step: ReceiverStep) -> bool {
        match step {
            ReceiverStep::Received(_) => register::rx_response(self.control)
                == register::UEP_R_RES_ACK,
            ReceiverStep::Interrupt(snapshot) => Receiver::foreign(snapshot, index),
            ReceiverStep::SetEnabled(direction, i, enabled) => {
                &&& 0 <= i < ENDPOINT_COUNT
                &&& direction == Direction::Out && i == index && enabled
                    ==> !self.model.output.complete.contains(index)
            },
            ReceiverStep::StartRead(ticket) => ticket.index == index && ticket.direction
                == Direction::Out,
            ReceiverStep::PollRead(guard) => guard.ticket.index == index && guard.ticket.direction
                == Direction::Out,
            ReceiverStep::Release(guard) => guard.ticket.index == index && guard.ticket.direction
                == Direction::Out,
            ReceiverStep::Keep(control) => register::rx_response(control) == register::rx_response(
                self.control,
            ),
            _ => true,
        }
    }

    /// The receiving side of endpoint `index` after a step.
    pub open spec fn step(self, index: int, step: ReceiverStep) -> Receiver {
        match step {
            ReceiverStep::Received(length) => Receiver {
                model: self.model.after_out(index, length),
                control: interrupt::control_after_out(index, self.control),
            },
            ReceiverStep::Interrupt(snapshot) => Receiver {
                model: self.model.after_interrupt(snapshot),
                control: if is_bus_reset(snapshot) {
                    state::reset_control(false, false)
                } else if is_packet(snapshot, Direction::In, index) {
                    interrupt::control_after_in(index, self.control)
                } else {
                    self.control
                },
            },
            ReceiverStep::SetEnabled(direction, i, enabled) => Receiver {
                model: self.model.after_set_enabled(direction, i, enabled),
                control: if i == index {
                    bus::control_after_enable(direction, enabled, self.control)
                } else {
                    self.control
                },
            },
            ReceiverStep::SetStalled(stalled) => Receiver {
                control: bus::control_after_stall(
                    Direction::Out,
                    stalled,
                    self.model.output.complete.contains(index),
                    self.control,
                ),
                ..self
            },
            ReceiverStep::StartRead(ticket) => Receiver {
                model: if ticket.live(self.model) {
                    UsbModel { output: self.model.output.consume(index), ..self.model }
                } else {
                    self.model
                },
                control: if ticket.spec_start_read(self.model, self.control) is Armed {
                    register::with_rx(self.control, register::UEP_R_RES_ACK)
                } else {
                    self.control
                },
            },
            ReceiverStep::PollRead(guard) => Receiver {
                model: if guard.outcome(self.model) == Some(Ok::<(), EndpointError>(())) {
                    UsbModel { output: self.model.output.consume(index), ..self.model }
                } else {
                    self.model
                },
                ..self
            },
            ReceiverStep::Release(guard) => Receiver {
                control: match guard.spec_release(self.model, self.control) {
                    Some(value) => value,
                    None => self.control,
                },
                ..self
            },
            ReceiverStep::Keep(control) => Receiver { control, ..self },
            ReceiverStep::BusEnable(allocated_in, allocated_out) => Receiver {
                model: self.model.after_enable(allocated_in, allocated_out),
                control: state::reset_control(false, false),
            },
            ReceiverStep::BusDisable => Receiver { model: self.model.after_disable(), ..self },
        }
    }

    /// The receiving side after a course of steps.
    pub open spec fn run(self, index: int, steps: Seq<ReceiverStep>) -> Receiver
        decreases steps.len(),
    {
        if steps.len() == 0 {
            self
        } else {
            self.run(index, steps.drop_last()).step(index, steps.last())
        }
    }

    /// Whether every step of the course can happen where it does.
    pub open spec fn allows_all(self, index: int, steps: Seq<ReceiverStep>) -> bool
        decreases steps.len(),
    {
        steps.len() == 0 || {
            &&& self.allows_all(index, steps.drop_last())
            &&& self.run(index, steps.drop_last()).allows(index, steps.last())
        }
    }

    /// The bank is safe: while it holds a packet that no task has taken, the
    /// endpoint does not accept another one.
    pub open spec fn safe(self, index: int) -> bool {
        self.model.output.complete.contains(index) ==> register::rx_response(self.control)
            != register::UEP_R_RES_ACK
    }

    /// Whether the step hands the pending packet to a task, or drops it because
    /// the endpoint was disabled or the bus was reset.
    pub open spec fn takes(self, index: int, step: ReceiverStep) -> bool {
        match step {
            ReceiverStep::Interrupt(snapshot) => is_bus_reset(snapshot),
            ReceiverStep::SetEnabled(direction, i, enabled) => direction == Direction::Out && i
                == index && !enabled,
            ReceiverStep::StartRead(ticket) => ticket.live(self.model),
            ReceiverStep::PollRead(guard) => guard.outcome(self.model) == Some(
                Ok::<(), EndpointError>(()),
            ),
            ReceiverStep::BusEnable(_, _) => true,
            _ => false,
        }
    }

    /// Whether some step of the course takes the pending packet.
    pub open spec fn takes_any(self, index: int, steps: Seq<ReceiverStep>) -> bool
        decreases steps.len(),
    {
        steps.len() > 0 && {
            ||| self.takes_any(index, steps.drop_last())
            ||| self.run(index, steps.drop_last()).takes(index, steps.last())
        }
    }
}

proof fn lemma_receiver_bits(c: u8)
    by (bit_vector)
    ensures
        ((c & !0x03u8) | 0x02u8) & 0x0cu8 == c & 0x0cu8,
        ((c & !0x03u8) | 0x03u8) & 0x0cu8 == c & 0x0cu8,
        (((c & !0x40u8) & !0x03u8) | 0x02u8) & 0x0cu8 == c & 0x0cu8,
        ((c & !0x0cu8) | 0x08u8) & 0x0cu8 == 0x08u8,
        ((c & !0x0cu8) | 0x0cu8) & 0x0cu8 == 0x0cu8,
        (((c & !0x80u8) & !0x0cu8) | 0x08u8) & 0x0cu8 == 0x08u8,
        0x1fu8 & 0x0cu8 == 0x0cu8,
{
}

proof fn lemma_receiver_step(receiver: Receiver, index: int, step: ReceiverStep)
    requires
        1 <= index < ENDPOINT_COUNT,
        receiver.model.wf(),
        receiver.safe(index),
        receiver.allows(index, step),
    ensures
        receiver.step(index, step).model.wf(),
        receiver.step(index, step).safe(index),
        receiver.model.output.complete.contains(index) && !receiver.takes(index, step) ==> {
            &&& receiver.step(index, step).model.output.complete.contains(index)
            &&& receiver.step(index, step).model.out_lengths[index]
                == receiver.model.out_lengths[index]
        },
{
    lemma_receiver_bits(receiver.control);
    if let ReceiverStep::Interrupt(snapshot) = step {
        lemma_transfer_index(UsbStep::Interrupt(snapshot));
    }
}

/// Whatever tasks, host and controller do, a bank that holds a packet is never
/// open for another one.
pub proof fn pending_packet_is_never_overwritten(
    receiver: Receiver,
    index: int,
    steps: Seq<ReceiverStep>,
)
    requires
        1 <= index < ENDPOINT_COUNT,
        receiver.model.wf(),
        receiver.safe(index),
        receiver.allows_all(index, steps),
    ensures
        receiver.run(index, steps).model.wf(),
        receiver.run(index, steps).safe(index),
    decreases steps.len(),
{
    if steps.len() > 0 {
        pending_packet_is_never_overwritten(receiver, index, steps.drop_last());
        lemma_receiver_step(receiver.run(index, steps.drop_last()), index, steps.last());
    }
}

/// A received packet waits for its reader: until a task takes it, or the host
/// takes the endpoint away, it stays pending with the length that it came with,
/// and a read that begins is handed that length.
pub proof fn pending_packet_is_kept(
    receiver: Receiver,
    index: int,
    steps: Seq<ReceiverStep>,
    ticket: TransferTicket,
    control: u8,
)
    requires
        1 <= index < ENDPOINT_COUNT,
        receiver.model.wf(),
        receiver.safe(index),
        receiver.model.output.complete.contains(index),
        receiver.allows_all(index, steps),
        !receiver.takes_any(index, steps),
    ensures
        ({
            let later = receiver.run(index, steps).model;
            &&& later.output.complete.contains(index)
            &&& later.out_lengths[index] == receiver.model.out_lengths[index]
            &&& ticket.index == index && ticket.direction == Direction::Out && ticket.live(later)
                ==> ticket.spec_start_read(later, control) == ReadStart::Completed(
                receiver.model.out_lengths[index] as usize,
            )
        }),
    decreases steps.len(),
{
    if steps.len() > 0 {
        pending_packet_is_kept(receiver, index, steps.drop_last(), ticket, control);
        pending_packet_is_never_overwritten(receiver, index, steps.drop_last());
        lemma_receiver_step(receiver.run(index, steps.drop_last()), index, steps.last());
    }
}

/// The transmitting side of an endpoint: the shared state, the endpoint's control
/// register, and the write that is outstanding. An endpoint has one user, so
/// there is one write at a time.
pub struct Sender {
    pub model: UsbModel,
    pub control: u8,
    pub write: Option<TransferGuard>,
}

/// A step that touches the transmitting side of an endpoint.
pub enum SenderStep {
    /// The host took the packet on offer.
    Taken,
    /// Any interrupt that is no packet taken from this endpoint.
    Interrupt(InterruptSnapshot),
    /// The host enabled or disabled an endpoint.
    SetEnabled(Direction, int, bool),
    /// The host halted a direction of this endpoint or cleared its halt.
    SetStalled(Direction, bool),
    /// A task armed a write.
    ArmWrite(TransferTicket),
    /// A task polled its write.
    PollWrite,
    /// A task dropped its write.
    Release,
    /// Something that keeps the transmit response: the receiving side, the other
    /// endpoints, or a data toggle that the controller advanced.
    Keep(u8),
    /// The bus was enabled with these endpoints allocated.
    BusEnable(Set<int>, Set<int>),
    /// The bus was disabled.
    BusDisable,
}

impl Sender {
    /// Whether the step can happen here. The controller sends only while the
    /// endpoint offers a packet, and a write is armed only when none is
    /// outstanding.
    pub open spec fn allows(self, index: int, step: SenderStep) -> bool {
        match step {
            SenderStep::Taken => register::tx_response(self.control) == register::UEP_T_RES_ACK,
            SenderStep::Interrupt(snapshot) => !is_packet(snapshot, Direction::In, index),
            SenderStep::SetEnabled(_, i, _) => 0 <= i < ENDPOINT_COUNT,
            SenderStep::ArmWrite(ticket) => {
                &&& self.write is None
                &&& ticket.index == index
                &&& ticket.direction == Direction::In
            },
            SenderStep::Keep(control) => register::tx_response(control) == register::tx_response(
                self.control,
            ),
            _ => true,
        }
    }

    /// The control register after the outstanding write was dropped.
    pub open spec fn released(self) -> u8 {
        match self.write {
            Some(guard) => match guard.spec_release(self.model, self.control) {
                Some(value) => value,
                None => self.control,
            },
            None => self.control,
        }
    }

    /// The transmitting side of endpoint `index` after a step. A write that a poll
    /// finds failed is dropped at once.
    pub open spec fn step(self, index: int, step: SenderStep) -> Sender {
        match step {
            SenderStep::Taken => Sender {
                model: self.model.after_in(index),
                control: interrupt::control_after_in(index, self.control),
                ..self
            },
            SenderStep::Interrupt(snapshot) => Sender {
                model: self.model.after_interrupt(snapshot),
                control: if is_bus_reset(snapshot) {
                    state::reset_control(false, false)
                } else if is_packet(snapshot, Direction::Out, index) {
                    interrupt::control_after_out(index, self.control)
                } else {
                    self.control
                },
                ..self
            },
            SenderStep::SetEnabled(direction, i, enabled) => Sender {
                model: self.model.after_set_enabled(direction, i, enabled),
                control: if i == index {
                    bus::control_after_enable(direction, enabled, self.control)
                } else {
                    self.control
                },
                ..self
            },
            SenderStep::SetStalled(direction, stalled) => Sender {
                control: bus::control_after_stall(
                    direction,
                    stalled,
                    self.model.output.complete.contains(index),
                    self.control,
                ),
                ..self
            },
            SenderStep::ArmWrite(ticket) => if ticket.live(self.model) {
                Sender {
                    model: UsbModel { input: self.model.input.consume(index), ..self.model },
                    control: register::with_tx(self.control, register::UEP_T_RES_ACK),
                    write: Some(ticket.guard(self.model)),
                }
            } else {
                self
            },
            SenderStep::PollWrite => match self.write {
                Some(guard) => match guard.outcome(self.model) {
                    Some(Ok(())) => Sender {
                        model: UsbModel { input: self.model.input.consume(index), ..self.model },
                        write: None,
                        ..self
                    },
                    Some(Err(_)) => Sender { control: self.released(), write: None, ..self },
                    None => self,
                },
                None => self,
            },
            SenderStep::Release => Sender { control: self.released(), write: None, ..self },
            SenderStep::Keep(control) => Sender { control, ..self },
            SenderStep::BusEnable(allocated_in, allocated_out) => Sender {
                model: self.model.after_enable(allocated_in, allocated_out),
                control: state::reset_control(false, false),
                ..self
            },
            SenderStep::BusDisable => Sender { model: self.model.after_disable(), ..self },
        }
    }

    /// The transmitting side after a course of steps.
    pub open spec fn run(self, index: int, steps: Seq<SenderStep>) -> Sender
        decreases steps.len(),
    {
        if steps.len() == 0 {
            self
        } else {
            self.run(index, steps.drop_last()).step(index, steps.last())
        }
    }

    /// Whether every step of the course can happen where it does.
    pub open spec fn allows_all(self, index: int, steps: Seq<SenderStep>) -> bool
        decreases steps.len(),
    {
        steps.len() == 0 || {
            &&& self.allows_all(index, steps.drop_last())
            &&& self.run(index, steps.drop_last()).allows(index, steps.last())
        }
    }

    /// The bank is software's: with no write outstanding, an endpoint that a new
    /// write could use offers no packet.
    pub open spec fn safe(self, index: int) -> bool {
        self.write is None && self.model.input.enabled.contains(index) ==> register::tx_response(
            self.control,
        ) != register::UEP_T_RES_ACK
    }

    /// The outstanding write belongs to this endpoint, and an enabled endpoint
    /// offers a packet only while that write waits for the host to take it. So it
    /// is, in particular, where no write is outstanding and the bank is safe.
    pub open spec fn accounted(self, index: int) -> bool {
        &&& self.write matches Some(guard) ==> guard.ticket.index == index
            && guard.ticket.direction == Direction::In && guard.armed
        &&& register::tx_response(self.control) == register::UEP_T_RES_ACK
            && self.model.input.enabled.contains(index) ==> (self.write matches Some(guard)
            && guard.outcome(self.model) is None)
    }
}

proof fn lemma_sender_bits(c: u8)
    by (bit_vector)
    ensures
        ((c & !0x0cu8) | 0x00u8) & 0x03u8 == c & 0x03u8,
        ((c & !0x0cu8) | 0x08u8) & 0x03u8 == c & 0x03u8,
        ((c & !0x0cu8) | 0x0cu8) & 0x03u8 == c & 0x03u8,
        (((c & !0x80u8) & !0x0cu8) | 0x00u8) & 0x03u8 == c & 0x03u8,
        (((c & !0x80u8) & !0x0cu8) | 0x08u8) & 0x03u8 == c & 0x03u8,
        ((c & !0x03u8) | 0x02u8) & 0x03u8 == 0x02u8,
        ((c & !0x03u8) | 0x03u8) & 0x03u8 == 0x03u8,
        (((c & !0x40u8) & !0x03u8) | 0x02u8) & 0x03u8 == 0x02u8,
        0x1fu8 & 0x03u8 == 0x03u8,
{
}

proof fn lemma_sender_step(sender: Sender, index: int, step: SenderStep)
    requires
        1 <= index < ENDPOINT_COUNT,
        sender.model.wf(),
        sender.accounted(index),
        sender.allows(index, step),
    ensures
        sender.step(index, step).model.wf(),
        sender.step(index, step).accounted(index),
{
    lemma_sender_bits(sender.control);
    if let SenderStep::Interrupt(snapshot) = step {
        lemma_transfer_index(UsbStep::Interrupt(snapshot));
    }
}

/// Whatever tasks, host and controller do, the bank of an endpoint without an
/// outstanding write is software's: the controller does not offer what a later
/// write copies over. It makes no difference how the writes before ended, and
/// whether they were dropped.
pub proof fn offered_packet_is_never_overwritten(
    sender: Sender,
    index: int,
    steps: Seq<SenderStep>,
)
    requires
        1 <= index < ENDPOINT_COUNT,
        sender.model.wf(),
        sender.accounted(index),
        sender.allows_all(index, steps),
    ensures
        sender.run(index, steps).model.wf(),
        sender.run(index, steps).accounted(index),
        sender.run(index, steps).safe(index),
    decreases steps.len(),
{
    if steps.len() > 0 {
        offered_packet_is_never_overwritten(sender, index, steps.drop_last());
        lemma_sender_step(sender.run(index, steps.drop_last()), index, steps.last());
    }
}

/// A write copies its packet only into a bank that the controller does not send:
/// a request that fills the bank, with no write outstanding, finds the endpoint
/// closed.
pub proof fn bank_is_filled_while_closed(
    sender: Sender,
    index: int,
    steps: Seq<SenderStep>,
    endpoint: Endpoint,
    length: int,
)
    requires
        1 <= index < ENDPOINT_COUNT,
        sender.model.wf(),
        sender.accounted(index),
        sender.allows_all(index, steps),
        sender.run(index, steps).write is None,
        endpoint.info.addr.spec_index() == index,
        endpoint.write_next(WriteStage::Request, sender.run(index, steps).model, length) is Arm,
    ensures
        register::tx_response(sender.run(index, steps).control) != register::UEP_T_RES_ACK,
{
    offered_packet_is_never_overwritten(sender, index, steps);
}

/// A SETUP packet that waits is handed out as it came, whatever data packets
/// overwrite the bank before the control task runs.
pub proof fn setup_packet_is_kept(model: UsbModel, packet: Seq<u8>, later: Seq<InterruptSnapshot>)
    requires
        forall|k: int|
            0 <= k < later.len() ==> !is_setup(#[trigger] later[k]) && !is_bus_reset(later[k]),
    ensures
        ({
            let end = model.after_setup(packet).run(
                later.map_values(|snapshot: InterruptSnapshot| UsbStep::Interrupt(snapshot)),
            );
            end.setup_pending && end.setup_packet == packet
        }),
    decreases later.len(),
{
    let steps = later.map_values(|snapshot: InterruptSnapshot| UsbStep::Interrupt(snapshot));
    if later.len() > 0 {
        let before = later.drop_last();
        assert forall|k: int| 0 <= k < before.len() implies !is_setup(#[trigger] before[k])
            && !is_bus_reset(before[k]) by {
            assert(!is_setup(later[k]));
        }
        setup_packet_is_kept(model, packet, before);
        assert(steps.drop_last() =~= before.map_values(
            |snapshot: InterruptSnapshot| UsbStep::Interrupt(snapshot),
        ));
        let last = later[later.len() - 1];
        assert(!is_setup(last) && !is_bus_reset(last));
        assert(steps.last() == UsbStep::Interrupt(last));
    }
}

/// A SETUP packet aborts the control transfer before it: no stage of any
/// earlier transfer can be armed, polled with success or finished, dropping one
/// writes nothing, and no acknowledged packet of it is left over for the new
/// transfer.
pub proof fn setup_aborts_control_transfer(
    model: UsbModel,
    packet: Seq<u8>,
    guard: ControlTransferGuard,
    control: u8,
)
    ensures
        ({
            let later = model.after_setup(packet);
            &&& forall|generation: u32| !control::current(later, generation)
            &&& guard.spec_release(later, control) is None
            &&& !later.input.complete.contains(0)
            &&& !later.output.complete.contains(0)
        }),
{
}

/// A bus reset aborts the control transfer before it.
pub proof fn reset_aborts_control_transfer(model: UsbModel, pipe: ControlPipe)
    requires
        control::current(model, pipe.reset_generation),
    ensures
        !control::current(model.after_bus_reset(), pipe.reset_generation),
        !control::current(model.after_disable(), pipe.reset_generation),
{
}

/// A control read of any number of packets alternates between DATA1 and DATA0:
/// it starts at DATA1 after the SETUP packet, offering a packet keeps the toggle,
/// and each packet that the host takes flips it.
pub proof fn control_read_alternates(control: u8, rx_status: u8)
    requires
        rx_status == register::UEP_R_RES_ACK || rx_status == register::UEP_R_RES_NAK,
    ensures
        interrupt::setup_control() & register::UEP_T_TOG != 0,
        control::in_control(control, rx_status) & register::UEP_T_TOG == control
            & register::UEP_T_TOG,
        register::tx_response(control::in_control(control, rx_status)) == register::UEP_T_RES_ACK,
        register::rx_response(control::in_control(control, rx_status)) == rx_status,
        (interrupt::control_after_in(0, control) & register::UEP_T_TOG != 0) == (control
            & register::UEP_T_TOG == 0),
        register::tx_response(interrupt::control_after_in(0, control)) == register::UEP_T_RES_NAK,
{
    lemma_control_toggle(control, rx_status);
}

proof fn lemma_control_toggle(c: u8, r: u8)
    by (bit_vector)
    requires
        r == 0x00u8 || r == 0x08u8,
    ensures
        0xcau8 & 0x40u8 != 0,
        ((c & !(0x0cu8 | 0x03u8)) | r | 0x00u8) & 0x40u8 == c & 0x40u8,
        ((c & !(0x0cu8 | 0x03u8)) | r | 0x00u8) & 0x03u8 == 0x00u8,
        ((c & !(0x0cu8 | 0x03u8)) | r | 0x00u8) & 0x0cu8 == r,
        ((((c ^ 0x40u8) & !0x03u8) | 0x02u8) & 0x40u8 != 0) == (c & 0x40u8 == 0),
        (((c ^ 0x40u8) & !0x03u8) | 0x02u8) & 0x03u8 == 0x02u8,
{
}

/// When a transfer and a bus reset are latched together, the first entry retires
/// the transfer alone and leaves the reset latched, and the next entry performs
/// the reset. Nothing of the transfer is interpreted after the reset.
pub proof fn transfer_retires_before_reset(
    model: UsbModel,
    first: InterruptSnapshot,
    second: InterruptSnapshot,
)
    requires
        first.flags & register::UIF_TRANSFER != 0,
        first.flags & register::UIF_BUS_RESET != 0,
        second.flags == first.flags & !register::UIF_TRANSFER,
    ensures
        interrupt::interrupt_actions(first).last() == interrupt::acknowledge(
            register::UIF_TRANSFER,
        ),
        forall|k: int|
            0 <= k < interrupt::interrupt_actions(first).len() ==> #[trigger]
                interrupt::interrupt_actions(first)[k] != interrupt::acknowledge(
                register::UIF_BUS_RESET,
            ),
        model.after_interrupt(first) == model.after_transfer(first),
        is_bus_reset(second),
        model.after_interrupt(first).after_interrupt(second) == model.after_transfer(
            first,
        ).after_bus_reset(),
{
    lemma_flag_bits(first.flags);
    lemma_transfer_index(UsbStep::Interrupt(first));
}

proof fn lemma_flag_bits(f: u8)
    by (bit_vector)
    ensures
        (f & !0x02u8) & 0x02u8 == 0,
        (f & !0x02u8) & 0x01u8 == f & 0x01u8,
{
}

/// The bus task takes each pending event once, the most urgent one first, and
/// finds none exactly when none is pending.
pub proof fn events_are_taken_once(events: Set<int>)
    ensures
        match bus::next_event(events) {
            Some((number, event)) => {
                &&& 0 <= number < 4
                &&& events.contains(number)
                &&& forall|other: int| 0 <= other < number ==> !events.contains(other)
                &&& match bus::next_event(events.remove(number)) {
                    Some((next, _)) => next > number,
                    None => true,
                }
            },
            None => forall|other: int| 0 <= other < 4 ==> !events.contains(other),
        },
{
}

/// Two endpoints of one direction never have the same address: a number that
/// was given out is not free again.
pub proof fn endpoints_are_distinct(
    allocated: Set<int>,
    direction: Direction,
    first: int,
    first_type: EndpointType,
    first_request: Option<EndpointAddress>,
    later: Set<int>,
    second: int,
    second_type: EndpointType,
    second_request: Option<EndpointAddress>,
)
    requires
        driver::is_choice(allocated, direction, first_type, first_request, first),
        allocated.insert(first).subset_of(later),
        driver::is_choice(later, direction, second_type, second_request, second),
    ensures
        first != second,
{
}

/// Each direction has three endpoints to give out: when they are gone, no
/// request succeeds.
pub proof fn endpoints_run_out(
    allocated: Set<int>,
    direction: Direction,
    ep_type: EndpointType,
    requested: Option<EndpointAddress>,
    max_packet_size: u16,
)
    requires
        allocated.contains(1),
        allocated.contains(2),
        allocated.contains(3),
    ensures
        !driver::can_allocate(allocated, direction, ep_type, requested, max_packet_size),
{
}

/// A request that can succeed has exactly one endpoint number to give.
pub proof fn choice_is_unique(
    allocated: Set<int>,
    direction: Direction,
    ep_type: EndpointType,
    requested: Option<EndpointAddress>,
    a: int,
    b: int,
)
    requires
        driver::is_choice(allocated, direction, ep_type, requested, a),
        driver::is_choice(allocated, direction, ep_type, requested, b),
    ensures
        a == b,
{
}

/// The mode bytes enable exactly the allocated endpoints: they tell which
/// directions of endpoints 1, 2 and 3 are allocated.
pub proof fn mode_bytes_name_endpoints(
    in_a: Set<int>,
    out_a: Set<int>,
    in_b: Set<int>,
    out_b: Set<int>,
    index: int,
)
    requires
        1 <= index < ENDPOINT_COUNT,
        bus::mode_bytes(in_a, out_a) == bus::mode_bytes(in_b, out_b),
    ensures
        in_a.contains(index) == in_b.contains(index),
        out_a.contains(index) == out_b.contains(index),
{
    let a = bus::mode_bytes(in_a, out_a);
    let b = bus::mode_bytes(in_b, out_b);
    assert(a[0] == b[0] && a[1] == b[1]);
}

/// Halting an endpoint and clearing the halt are seen by the host as such. The
/// halt keeps the data toggle, and clearing it restarts at DATA0.
pub proof fn halt_is_reported(direction: Direction, pending: bool, control: u8)
    ensures
        ({
            let halted = bus::control_after_stall(direction, true, pending, control);
            let cleared = bus::control_after_stall(direction, false, pending, control);
            &&& register::response(halted, direction) == register::stall(direction)
            &&& register::response(cleared, direction) != register::stall(direction)
            &&& halted & register::toggle(direction) == control & register::toggle(direction)
            &&& cleared & register::toggle(direction) == 0
        }),
{
    lemma_halt_bits(control);
    register::lemma_with_response(control, direction, register::stall(direction));
    let data0 = control & !register::toggle(direction);
    register::lemma_with_response(data0, direction, register::nak(direction));
    register::lemma_with_response(data0, direction, register::ack(direction));
}

proof fn lemma_halt_bits(c: u8)
    by (bit_vector)
    ensures
        ((c & !0x03u8) | 0x03u8) & 0x40u8 == c & 0x40u8,
        ((c & !0x0cu8) | 0x0cu8) & 0x80u8 == c & 0x80u8,
        (((c & !0x40u8) & !0x03u8) | 0x02u8) & 0x40u8 == 0,
        (((c & !0x80u8) & !0x0cu8) | 0x00u8) & 0x80u8 == 0,
        (((c & !0x80u8) & !0x0cu8) | 0x08u8) & 0x80u8 == 0,
{
}

/// A wake-up of the host is over when it ends: a controller that was in device
/// mode is in device mode again, and a forced reset that was released is gone.
pub proof fn bus_signals_end(ctrl: u8)
    ensures
        ctrl & bus::CTRL_MODE_MASK == bus::CTRL_MODE_DEVICE ==> (((ctrl & !bus::CTRL_MODE_MASK)
            | bus::CTRL_MODE_WAKEUP) & !bus::CTRL_MODE_MASK) | bus::CTRL_MODE_DEVICE == ctrl,
        ctrl & bus::CTRL_BUS_RESET == 0 ==> (ctrl | bus::CTRL_BUS_RESET) & !bus::CTRL_BUS_RESET
            == ctrl,
{
    lemma_signal_bits(ctrl);
}

proof fn lemma_signal_bits(c: u8)
    by (bit_vector)
    ensures
        c & 0x30u8 == 0x20u8 ==> (((c & !0x30u8) | 0x30u8) & !0x30u8) | 0x20u8 == c,
        c & 0x04u8 == 0 ==> (c | 0x04u8) & !0x04u8 == c,
{
}

/// The interrupt that the bus enables enters the USB vector on either chip.
pub proof fn usb_interrupt_has_its_vector(chip: Chip, table: Seq<Vector>)
    requires
        is_vector_table(chip, table),
    ensures
        table[register::USB_IRQ - FIRST_EXTERNAL] == Vector::USB,
{
    assert(Vector::USB.present(chip));
}

/// Whether the action writes an endpoint mode or DMA register.
pub open spec fn is_endpoint_setup(action: Action) -> bool {
    match action {
        Action::Write8 { offset, .. } => register::ENDPOINT_MODES <= offset
            <= register::ENDPOINT_MODES + 2,
        Action::WriteDma { .. } => true,
        _ => false,
    }
}

/// Whether the action writes the main control register.
pub open spec fn is_ctrl(action: Action) -> bool {
    action matches Action::Write8 { offset, .. } && offset == register::CTRL
}

/// Enabling the bus stops the serial engine first: endpoint modes and DMA
/// addresses are written only while it is stopped, and the interrupt is let
/// through last of all.
pub proof fn enable_programs_stopped_controller(
    chip: crate::chip::Chip,
    dma: bus::DmaLayout,
    pins: u16,
    allocated_in: Set<int>,
    allocated_out: Set<int>,
)
    ensures
        ({
            let actions = bus::enable_actions(chip, dma, pins, allocated_in, allocated_out);
            &&& actions[0] == (Action::Write8 { offset: register::CTRL, value: 0 })
            &&& forall|k: int, j: int|
                0 <= k < actions.len() && 0 < j < k && is_endpoint_setup(#[trigger] actions[k])
                    ==> !is_ctrl(#[trigger] actions[j])
            &&& actions.last() == Action::Pfic(
                crate::pfic::PficAction::Enable { irq: register::USB_IRQ },
            )
        }),
{
    reveal_with_fuel(bus::dma_actions, 5);
    reveal_with_fuel(state::reset_endpoint_actions, 5);
    let actions = bus::enable_actions(chip, dma, pins, allocated_in, allocated_out);
    assert(actions.len() == 24);
    assert forall|k: int, j: int|
        0 <= k < actions.len() && 0 < j < k && is_endpoint_setup(
            #[trigger] actions[k],
        ) implies !is_ctrl(#[trigger] actions[j]) by {
        assert(k < 8);
    }
}

} // verus!
