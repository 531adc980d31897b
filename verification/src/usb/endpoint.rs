//! Packet transfers of the non-control endpoints.

use vstd::prelude::*;

use crate::bits;
use crate::usb::address::{Direction, ENDPOINT_COUNT};
use crate::usb::bank;
use crate::usb::bank::PacketMemory;
use crate::usb::register;
use crate::usb::register::{Action, EP_PACKET_SIZE};
use crate::usb::state::{UsbModel, UsbState};
use crate::usb::types::{EndpointError, EndpointInfo};

verus! {

/// An allocated endpoint.
#[derive(Clone, Copy, Debug)]
pub struct Endpoint {
    pub info: EndpointInfo,
    /// The reset generation in which the endpoint was last seen enabled.
    pub reset_generation: u32,
}

/// The lifecycle of an endpoint in which a transfer was requested.
#[derive(Clone, Copy, Debug, PartialEq, Eq, Structural)]
pub struct TransferTicket {
    pub index: usize,
    pub direction: Direction,
    pub reset_generation: u32,
    pub enable_generation: u32,
}

/// A transfer that was handed to the controller. Whoever drops a transfer before
/// it is done calls `release`, which takes the bank back from the controller.
#[derive(Clone, Copy, Debug, PartialEq, Eq, Structural)]
pub struct TransferGuard {
    pub ticket: TransferTicket,
    pub completion_generation: u8,
    pub armed: bool,
}

/// How a read begins.
#[derive(Clone, Copy, Debug, PartialEq, Eq, Structural)]
pub enum ReadStart {
    /// The endpoint was disabled.
    Disabled,
    /// A packet of this length was received before the read began.
    Completed(usize),
    /// The endpoint waits for a packet, once the action is performed.
    Armed(TransferGuard, Action),
}

impl TransferTicket {
    /// The endpoint number has a bank.
    pub open spec fn wf(self) -> bool {
        self.index < ENDPOINT_COUNT
    }

    /// Whether the endpoint is still in the lifecycle of this ticket: no reset,
    /// and neither disabled nor enabled since.
    pub open spec fn live(self, model: UsbModel) -> bool {
        let side = model.side(self.direction);
        &&& model.reset_generation == self.reset_generation
        &&& side.enables[self.index as int] == self.enable_generation
        &&& side.enabled.contains(self.index as int)
    }

    /// Whether the endpoint is still in the lifecycle of this ticket.
    pub fn is_live(&self, state: &UsbState) -> (live: bool)
        requires
            self.wf(),
        ensures
            live == self.live(state@),
    {
        let side = match self.direction {
            Direction::In => &state.input,
            Direction::Out => &state.output,
        };
        state.reset_generation == self.reset_generation && side.enables[self.index]
            == self.enable_generation && bits::has8(side.enabled, self.index)
    }

    /// Hands the packet of `length` bytes in the bank to the controller, unless
    /// the endpoint has left its lifecycle meanwhile. `control` is the
    /// endpoint's control register.
    pub fn arm_write(self, state: &mut UsbState, length: usize, control: u8) -> (result: Result<
        (TransferGuard, Vec<Action>),
        EndpointError,
    >)
        requires
            self.wf(),
            self.direction == Direction::In,
            length <= EP_PACKET_SIZE,
        ensures
            !self.live(old(state)@) ==> {
                &&& result == Err::<(TransferGuard, Vec<Action>), _>(EndpointError::Disabled)
                &&& final(state)@ == old(state)@
            },
            self.live(old(state)@) ==> {
                &&& result matches Ok((guard, actions))
                &&& guard == self.guard(old(state)@)
                &&& actions@ == seq![
                    register::write_tx_length(self.index as int, length as u8),
                    register::write_control(
                        self.index as int,
                        register::with_tx(control, register::UEP_T_RES_ACK),
                    ),
                ]
                &&& final(state)@ == (UsbModel {
                    input: old(state)@.input.consume(self.index as int),
                    ..old(state)@
                })
            },
    {
        if !self.is_live(state) {
            return Err(EndpointError::Disabled);
        }
        let completion_generation: u8 = state.input.completions[self.index];
        state.input.consume(self.index);
        let mut actions: Vec<Action> = Vec::new();
        actions.push(
            Action::Write8 {
                offset: register::endpoint_tx_length(self.index),
                value: length as u8,
            },
        );
        actions.push(
            Action::Write8 {
                offset: register::endpoint_control(self.index),
                value: register::set_tx(control, register::UEP_T_RES_ACK),
            },
        );
        assert(actions@ =~= seq![
            register::write_tx_length(self.index as int, length as u8),
            register::write_control(
                self.index as int,
                register::with_tx(control, register::UEP_T_RES_ACK),
            ),
        ]);
        Ok((TransferGuard { ticket: self, completion_generation, armed: true }, actions))
    }

    /// The guard of a transfer that is armed in `model`.
    pub open spec fn guard(self, model: UsbModel) -> TransferGuard {
        TransferGuard {
            ticket: self,
            completion_generation: model.side(self.direction).completions[self.index as int],
            armed: true,
        }
    }

    /// Begins to read. A packet that the controller received before the read
    /// began is taken as it is; otherwise the endpoint is opened for one.
    pub fn start_read(self, state: &mut UsbState, control: u8) -> (start: ReadStart)
        requires
            self.wf(),
            self.direction == Direction::Out,
        ensures
            start == self.spec_start_read(old(state)@, control),
            final(state)@ == (if self.live(old(state)@) {
                UsbModel {
                    output: old(state)@.output.consume(self.index as int),
                    ..old(state)@
                }
            } else {
                old(state)@
            }),
    {
        if !self.is_live(state) {
            return ReadStart::Disabled;
        }
        if state.output.consume(self.index) {
            ReadStart::Completed(state.out_lengths[self.index] as usize)
        } else {
            let completion_generation: u8 = state.output.completions[self.index];
            let action = Action::Write8 {
                offset: register::endpoint_control(self.index),
                value: register::set_rx(control, register::UEP_R_RES_ACK),
            };
            ReadStart::Armed(
                TransferGuard { ticket: self, completion_generation, armed: true },
                action,
            )
        }
    }

    /// How a read begins in `model`.
    pub open spec fn spec_start_read(self, model: UsbModel, control: u8) -> ReadStart {
        if !self.live(model) {
            ReadStart::Disabled
        } else if model.output.complete.contains(self.index as int) {
            ReadStart::Completed(model.out_lengths[self.index as int] as usize)
        } else {
            ReadStart::Armed(
                self.guard(model),
                register::write_control(
                    self.index as int,
                    register::with_rx(control, register::UEP_R_RES_ACK),
                ),
            )
        }
    }

    /// Confirms, after a read began with a packet of `length` bytes, that the
    /// packet still belongs to the endpoint.
    pub fn confirm_read(&self, state: &UsbState, length: usize) -> (result: Result<
        usize,
        EndpointError,
    >)
        requires
            self.wf(),
        ensures
            result == (if self.live(state@) {
                Ok::<usize, EndpointError>(length)
            } else {
                Err(EndpointError::Disabled)
            }),
    {
        if self.is_live(state) {
            Ok(length)
        } else {
            Err(EndpointError::Disabled)
        }
    }
}

impl TransferGuard {
    /// The endpoint number has a bank.
    pub open spec fn wf(self) -> bool {
        self.ticket.wf()
    }

    /// Whether the armed packet was acknowledged since.
    pub open spec fn done(self, model: UsbModel) -> bool {
        model.side(self.ticket.direction).completions[self.ticket.index as int]
            != self.completion_generation
    }

    /// What polling the transfer finds: nothing while it is outstanding, an error
    /// once the endpoint left its lifecycle, even if a packet was acknowledged
    /// as well, and success otherwise.
    pub open spec fn outcome(self, model: UsbModel) -> Option<Result<(), EndpointError>> {
        if !self.ticket.live(model) {
            Some(Err(EndpointError::Disabled))
        } else if self.done(model) {
            Some(Ok(()))
        } else {
            None
        }
    }

    /// Forgets the transfer: it is done, so its bank needs no taking back.
    pub fn disarm(&mut self)
        ensures
            *final(self) == (TransferGuard { armed: false, ..*old(self) }),
    {
        self.armed = false;
    }

    /// Polls a write. `None` means that the packet is still outstanding.
    pub fn poll_write(&mut self, state: &mut UsbState) -> (result: Option<
        Result<(), EndpointError>,
    >)
        requires
            old(self).wf(),
            old(self).ticket.direction == Direction::In,
        ensures
            result == old(self).outcome(old(state)@),
            result == Some(Ok::<(), EndpointError>(())) ==> {
                &&& *final(self) == (TransferGuard { armed: false, ..*old(self) })
                &&& final(state)@ == (UsbModel {
                    input: old(state)@.input.consume(old(self).ticket.index as int),
                    ..old(state)@
                })
            },
            result != Some(Ok::<(), EndpointError>(())) ==> {
                &&& *final(self) == *old(self)
                &&& final(state)@ == old(state)@
            },
    {
        if !self.ticket.is_live(state) {
            Some(Err(EndpointError::Disabled))
        } else if state.input.completions[self.ticket.index] != self.completion_generation {
            state.input.consume(self.ticket.index);
            self.disarm();
            Some(Ok(()))
        } else {
            None
        }
    }

    /// Polls a read. On success the result is the length of the packet.
    pub fn poll_read(&mut self, state: &mut UsbState) -> (result: Option<
        Result<usize, EndpointError>,
    >)
        requires
            old(self).wf(),
            old(self).ticket.direction == Direction::Out,
        ensures
            result == (match old(self).outcome(old(state)@) {
                Some(Ok(())) => Some(
                    Ok::<usize, EndpointError>(
                        old(state)@.out_lengths[old(self).ticket.index as int] as usize,
                    ),
                ),
                Some(Err(error)) => Some(Err(error)),
                None => None,
            }),
            old(self).outcome(old(state)@) == Some(Ok::<(), EndpointError>(())) ==> {
                &&& *final(self) == (TransferGuard { armed: false, ..*old(self) })
                &&& final(state)@ == (UsbModel {
                    output: old(state)@.output.consume(old(self).ticket.index as int),
                    ..old(state)@
                })
            },
            old(self).outcome(old(state)@) != Some(Ok::<(), EndpointError>(())) ==> {
                &&& *final(self) == *old(self)
                &&& final(state)@ == old(state)@
            },
    {
        if !self.ticket.is_live(state) {
            Some(Err(EndpointError::Disabled))
        } else if state.output.completions[self.ticket.index] != self.completion_generation {
            state.output.consume(self.ticket.index);
            self.disarm();
            Some(Ok(state.out_lengths[self.ticket.index] as usize))
        } else {
            None
        }
    }

    /// What dropping the transfer writes to the endpoint's control register.
    pub open spec fn spec_release(self, model: UsbModel, control: u8) -> Option<u8> {
        if self.armed && self.outcome(model) == None::<Result<(), EndpointError>> {
            Some(release_control(self.ticket.direction, control))
        } else {
            None
        }
    }

    /// Takes the bank back when the transfer is dropped: the value to write to
    /// the endpoint's control register, of which `control` is the present value.
    /// Nothing is written for a transfer that is done, or that belongs to an
    /// earlier lifecycle of the endpoint.
    pub fn release(&self, state: &UsbState, control: u8) -> (result: Option<u8>)
        requires
            self.wf(),
        ensures
            result == self.spec_release(state@, control),
    {
        if !self.armed || !self.ticket.is_live(state) {
            return None;
        }
        let completions = match self.ticket.direction {
            Direction::In => &state.input.completions,
            Direction::Out => &state.output.completions,
        };
        if completions[self.ticket.index] != self.completion_generation {
            return None;
        }
        Some(released_control(self.ticket.direction, control))
    }
}

/// The control byte with `direction` closed again: an accepting response becomes
/// a deferring one, any other is kept.
pub open spec fn release_control(direction: Direction, control: u8) -> u8 {
    if register::response(control, direction) == register::ack(direction) {
        register::with_response(control, direction, register::nak(direction))
    } else {
        control
    }
}

/// The control byte with `direction` closed again.
pub fn released_control(direction: Direction, control: u8) -> (result: u8)
    ensures
        result == release_control(direction, control),
{
    match direction {
        Direction::In => {
            if control & register::UEP_T_RES_MASK == register::UEP_T_RES_ACK {
                register::set_tx(control, register::UEP_T_RES_NAK)
            } else {
                control
            }
        },
        Direction::Out => {
            if control & register::UEP_R_RES_MASK == register::UEP_R_RES_ACK {
                register::set_rx(control, register::UEP_R_RES_NAK)
            } else {
                control
            }
        },
    }
}

impl Endpoint {
    /// The endpoint has a bank of its own, and its packets fit into it.
    pub open spec fn wf(self) -> bool {
        &&& 1 <= self.info.addr.spec_index() < ENDPOINT_COUNT
        &&& 1 <= self.info.max_packet_size <= EP_PACKET_SIZE
    }

    /// The ticket of a transfer in `direction` that is requested in `model`.
    pub open spec fn ticket(self, model: UsbModel, direction: Direction) -> TransferTicket {
        TransferTicket {
            index: self.info.addr.spec_index() as usize,
            direction,
            reset_generation: model.reset_generation,
            enable_generation: model.side(direction).enables[self.info.addr.spec_index()],
        }
    }

    /// Whether the host has configured `direction` of the endpoint's number.
    pub open spec fn enabled(self, model: UsbModel, direction: Direction) -> bool {
        model.side(direction).enabled.contains(self.info.addr.spec_index())
    }

    /// What the descriptors say of the endpoint.
    pub fn info(&self) -> (info: &EndpointInfo)
        ensures
            *info == self.info,
    {
        &self.info
    }

    fn take_ticket(&self, state: &UsbState, direction: Direction) -> (ticket: Option<
        TransferTicket,
    >)
        requires
            self.wf(),
        ensures
            ticket == (if self.enabled(state@, direction) {
                Some(self.ticket(state@, direction))
            } else {
                None
            }),
    {
        let index: usize = self.info.addr.index();
        let side = match direction {
            Direction::In => &state.input,
            Direction::Out => &state.output,
        };
        if !bits::has8(side.enabled, index) {
            return None;
        }
        Some(
            TransferTicket {
                index,
                direction,
                reset_generation: state.reset_generation,
                enable_generation: side.enables[index],
            },
        )
    }

    /// Polls for the endpoint to be enabled.
    pub fn wait_enabled(&mut self, state: &UsbState) -> (enabled: bool)
        requires
            old(self).wf(),
        ensures
            enabled == old(self).enabled(state@, old(self).info.addr.spec_direction()),
            *final(self) == (Endpoint {
                reset_generation: if enabled {
                    state@.reset_generation
                } else {
                    old(self).reset_generation
                },
                ..*old(self)
            }),
    {
        match self.take_ticket(state, self.info.addr.direction()) {
            Some(ticket) => {
                self.reset_generation = ticket.reset_generation;
                true
            },
            None => false,
        }
    }

    /// The bank that holds the packets in `direction` of the endpoint's number.
    pub open spec fn bank(self, model: UsbModel, direction: Direction) -> bank::Bank {
        bank::spec_bank(self.info.addr.spec_index(), direction, model.output.allocated)
    }

    /// Requests to write a packet and copies it into the endpoint's bank; the
    /// ticket then arms the transfer.
    pub fn begin_write(&self, state: &UsbState, memory: &mut PacketMemory, data: &[u8]) -> (result:
        Result<TransferTicket, EndpointError>)
        requires
            self.wf(),
        ensures
            result == (if data@.len() > self.info.max_packet_size {
                Err::<TransferTicket, EndpointError>(EndpointError::BufferOverflow)
            } else if !self.enabled(state@, Direction::In) {
                Err(EndpointError::Disabled)
            } else {
                Ok(self.ticket(state@, Direction::In))
            }),
            final(memory)@ == (if result is Ok {
                old(memory)@.written(self.bank(state@, Direction::In), data@)
            } else {
                old(memory)@
            }),
    {
        if data.len() > self.info.max_packet_size as usize {
            return Err(EndpointError::BufferOverflow);
        }
        match self.take_ticket(state, Direction::In) {
            Some(ticket) => {
                let bank = bank::endpoint_bank(
                    ticket.index,
                    Direction::In,
                    state.output.allocated,
                );
                memory.write_endpoint_buffer(bank, data);
                Ok(ticket)
            },
            None => Err(EndpointError::Disabled),
        }
    }

    /// Requests to read a packet.
    pub fn begin_read(&self, state: &UsbState) -> (result: Result<TransferTicket, EndpointError>)
        requires
            self.wf(),
        ensures
            result == (if self.enabled(state@, Direction::Out) {
                Ok::<TransferTicket, EndpointError>(self.ticket(state@, Direction::Out))
            } else {
                Err(EndpointError::Disabled)
            }),
    {
        match self.take_ticket(state, Direction::Out) {
            Some(ticket) => Ok(ticket),
            None => Err(EndpointError::Disabled),
        }
    }

    /// Ends a read of a packet of `length` bytes by copying it to the start of
    /// `output`.
    pub fn finish_read(&self, memory: &PacketMemory, length: usize, output: &mut [u8]) -> (result:
        Result<usize, EndpointError>)
        requires
            self.wf(),
            length <= old(output)@.len() ==> length <= EP_PACKET_SIZE,
        ensures
            result == (if length > old(output)@.len() {
                Err::<usize, EndpointError>(EndpointError::BufferOverflow)
            } else {
                Ok(length)
            }),
            final(output)@ == (if result is Ok {
                bank::overwrite(
                    old(output)@,
                    0,
                    memory@.bytes(
                        bank::spec_bank(
                            self.info.addr.spec_index(),
                            Direction::Out,
                            Set::empty(),
                        ),
                    ).take(length as int),
                )
            } else {
                old(output)@
            }),
    {
        if length > output.len() {
            return Err(EndpointError::BufferOverflow);
        }
        proof {
            bits::lemma_empty8();
        }
        let bank = bank::endpoint_bank(self.info.addr.index(), Direction::Out, 0);
        memory.read_endpoint_buffer(bank, length, output);
        Ok(length)
    }
}

} // verus!
