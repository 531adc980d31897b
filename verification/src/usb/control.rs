//! Endpoint zero.

use vstd::prelude::*;

use crate::bits;
use crate::usb::address::Direction;
use crate::usb::bank;
use crate::usb::bank::{Bank, PacketMemory};
use crate::usb::endpoint;
use crate::usb::interrupt;
use crate::usb::register;
use crate::usb::register::{Action, EP_PACKET_SIZE};
use crate::usb::state::{UsbModel, UsbState};
use crate::usb::types::EndpointError;

verus! {

/// Endpoint-zero state machine.
#[derive(Clone, Copy, Debug, PartialEq, Eq, Structural)]
pub struct ControlPipe {
    pub max_packet_size: usize,
    /// The reset generation of the control transfer that is being handled.
    pub reset_generation: u32,
}

/// A stage of a control transfer that was handed to the controller. Whoever
/// drops a stage before it is done calls `release`.
#[derive(Clone, Copy, Debug, PartialEq, Eq, Structural)]
pub struct ControlTransferGuard {
    pub direction: Direction,
    pub reset_generation: u32,
    pub armed: bool,
}

/// Whether the control transfer of reset generation `generation` is still the
/// current one: no reset since, and no newer SETUP packet waits.
pub open spec fn current(model: UsbModel, generation: u32) -> bool {
    model.reset_generation == generation && !model.setup_pending
}

/// Tells whether the transfer of reset generation `generation` is still the
/// present one.
pub fn is_current(state: &UsbState, generation: u32) -> (result: bool)
    ensures
        result == current(state@, generation),
{
    state.reset_generation == generation && !state.setup_pending
}

/// The control byte of endpoint zero while an IN packet is on offer. The data
/// toggles are kept: the SETUP packet set them, and each packet advances them.
pub open spec fn in_control(control: u8, rx_status: u8) -> u8 {
    (control & !(register::UEP_R_RES_MASK | register::UEP_T_RES_MASK)) | rx_status
        | register::UEP_T_RES_ACK
}

/// The effects of offering an IN packet of `length` bytes on endpoint zero.
pub open spec fn prepare_actions(length: int, rx_status: u8, control: u8) -> Seq<Action> {
    seq![
        register::write_tx_length(0, length as u8),
        register::write_control(0, in_control(control, rx_status)),
    ]
}

/// The control byte of endpoint zero after a status stage: ready for SETUP.
pub open spec fn idle_control() -> u8 {
    0x02
}

/// The control byte of endpoint zero that lets the host end a control read:
/// DATA1 both ways, receiving.
pub open spec fn status_out_control() -> u8 {
    0xc2
}

/// The control byte of endpoint zero that rejects a request.
pub open spec fn reject_control() -> u8 {
    0x0f
}

/// The device address register after it was given a new address.
pub open spec fn address_byte(dev_ad: u8, address: u8) -> u8 {
    (dev_ad & 0x80) | (address & 0x7f)
}

/// The effects of ending a status stage, with the address that it assigned.
pub open spec fn status_actions(address: Option<u8>, dev_ad: u8) -> Seq<Action> {
    match address {
        Some(address) => seq![
            register::write_control(0, idle_control()),
            Action::Write8 { offset: register::DEV_AD, value: address_byte(dev_ad, address) },
        ],
        None => seq![register::write_control(0, idle_control())],
    }
}

impl UsbModel {
    /// The model without the pending packet of endpoint zero in `direction`.
    pub open spec fn consume_control(self, direction: Direction) -> UsbModel {
        self.with_side(direction, self.side(direction).consume(0))
    }
}

impl ControlTransferGuard {
    /// A guard of a stage that was just armed.
    pub fn new(direction: Direction, reset_generation: u32) -> (guard: ControlTransferGuard)
        ensures
            guard == (ControlTransferGuard { direction, reset_generation, armed: true }),
    {
        ControlTransferGuard { direction, reset_generation, armed: true }
    }

    /// Forgets the stage: it is done.
    pub fn disarm(&mut self)
        ensures
            *final(self) == (ControlTransferGuard { armed: false, ..*old(self) }),
    {
        self.armed = false;
    }

    /// What dropping the stage writes to the control register of endpoint zero.
    pub open spec fn spec_release(self, model: UsbModel, control: u8) -> Option<u8> {
        if self.armed && current(model, self.reset_generation) && !model.side(
            self.direction,
        ).complete.contains(0) {
            Some(endpoint::release_control(self.direction, control))
        } else {
            None
        }
    }

    /// Closes endpoint zero again when the stage is dropped: the value to write
    /// to its control register, of which `control` is the present value. Nothing
    /// is written for a stage that is done, nor after a reset or a newer SETUP
    /// packet.
    pub fn release(&self, state: &UsbState, control: u8) -> (result: Option<u8>)
        ensures
            result == self.spec_release(state@, control),
    {
        if !self.armed || !is_current(state, self.reset_generation) {
            return None;
        }
        let completed = match self.direction {
            Direction::In => bits::has8(state.input.complete, 0),
            Direction::Out => bits::has8(state.output.complete, 0),
        };
        if completed {
            return None;
        }
        Some(endpoint::released_control(self.direction, control))
    }
}

impl ControlPipe {
    /// Control packets fit into the bank.
    pub open spec fn wf(self) -> bool {
        self.max_packet_size <= EP_PACKET_SIZE
    }

    /// The largest packet of endpoint zero.
    pub fn max_packet_size(&self) -> (size: usize)
        ensures
            size == self.max_packet_size,
    {
        self.max_packet_size
    }

    /// Takes the pending SETUP packet, if there is one. The action keeps
    /// endpoint zero closed until a stage is armed.
    pub fn setup(&mut self, state: &mut UsbState) -> (result: Option<([u8; 8], Action)>)
        ensures
            old(state)@.setup_pending ==> {
                &&& result matches Some((packet, action))
                &&& packet@ == old(state)@.setup_packet
                &&& action == register::write_control(0, interrupt::setup_control())
                &&& final(state)@ == (UsbModel { setup_pending: false, ..old(state)@ })
                &&& *final(self) == (ControlPipe {
                    reset_generation: old(state)@.reset_generation,
                    ..*old(self)
                })
            },
            !old(state)@.setup_pending ==> {
                &&& result is None
                &&& final(state)@ == old(state)@
                &&& *final(self) == *old(self)
            },
    {
        if !state.setup_pending {
            return None;
        }
        proof {
            register::lemma_constants();
        }
        state.setup_pending = false;
        self.reset_generation = state.reset_generation;
        let value: u8 = register::UEP_R_TOG | register::UEP_T_TOG | register::UEP_R_RES_NAK
            | register::UEP_T_RES_NAK;
        Some(
            (
                state.setup_packet,
                Action::Write8 { offset: register::endpoint_control(0), value },
            ),
        )
    }

    /// Polls for the packet of an armed stage. `None` means that it is still
    /// outstanding; a reset or a newer SETUP packet ends the transfer.
    pub fn poll_ep0(&mut self, state: &mut UsbState, direction: Direction) -> (result: Option<
        Result<usize, EndpointError>,
    >)
        ensures
            !current(old(state)@, old(self).reset_generation) ==> {
                &&& result == Some(Err::<usize, _>(EndpointError::Disabled))
                &&& final(state)@ == old(state)@
                &&& *final(self) == (ControlPipe {
                    reset_generation: old(state)@.reset_generation,
                    ..*old(self)
                })
            },
            current(old(state)@, old(self).reset_generation) ==> {
                &&& result == (if old(state)@.side(direction).complete.contains(0) {
                    Some(Ok::<usize, EndpointError>(old(state)@.out_lengths[0] as usize))
                } else {
                    None
                })
                &&& final(state)@ == old(state)@.consume_control(direction)
                &&& *final(self) == *old(self)
            },
    {
        if state.reset_generation != self.reset_generation {
            self.reset_generation = state.reset_generation;
            return Some(Err(EndpointError::Disabled));
        }
        if state.setup_pending {
            return Some(Err(EndpointError::Disabled));
        }
        let completed = match direction {
            Direction::In => state.input.consume(0),
            Direction::Out => state.output.consume(0),
        };
        if completed {
            Some(Ok(state.out_lengths[0] as usize))
        } else {
            None
        }
    }

    /// Offers an IN packet, unless the control transfer is no longer the current
    /// one. `control` is the control register of endpoint zero.
    fn prepare_in(
        &self,
        state: &mut UsbState,
        memory: &mut PacketMemory,
        data: &[u8],
        rx_status: u8,
        control: u8,
    ) -> (result: Option<Vec<Action>>)
        requires
            data@.len() <= EP_PACKET_SIZE,
        ensures
            !current(old(state)@, self.reset_generation) ==> {
                &&& result is None
                &&& final(state)@ == old(state)@
                &&& final(memory)@ == old(memory)@
            },
            current(old(state)@, self.reset_generation) ==> {
                &&& result matches Some(actions)
                &&& actions@ == prepare_actions(data@.len() as int, rx_status, control)
                &&& final(memory)@ == old(memory)@.written(Bank::Control, data@)
                &&& final(state)@ == old(state)@.consume_control(Direction::In)
            },
    {
        if !is_current(state, self.reset_generation) {
            return None;
        }
        state.input.consume(0);
        let mut actions: Vec<Action> = Vec::new();
        memory.write_endpoint_buffer(Bank::Control, data);
        actions.push(
            Action::Write8 { offset: register::endpoint_tx_length(0), value: data.len() as u8 },
        );
        actions.push(
            Action::Write8 {
                offset: register::endpoint_control(0),
                value: (control & !(register::UEP_R_RES_MASK | register::UEP_T_RES_MASK))
                    | rx_status | register::UEP_T_RES_ACK,
            },
        );
        assert(actions@ =~= prepare_actions(data@.len() as int, rx_status, control));
        Some(actions)
    }

    /// Begins the status stage of a control write by offering an empty packet.
    /// Nothing is done when the transfer is no longer the current one.
    pub fn begin_status(&self, state: &mut UsbState, memory: &mut PacketMemory, control: u8) -> (result:
        Option<(ControlTransferGuard, Vec<Action>)>)
        ensures
            final(memory)@ == old(memory)@,
            !current(old(state)@, self.reset_generation) ==> {
                &&& result is None
                &&& final(state)@ == old(state)@
            },
            current(old(state)@, self.reset_generation) ==> {
                &&& result matches Some((guard, actions))
                &&& guard == self.guard(Direction::In)
                &&& actions@ == prepare_actions(0, register::UEP_R_RES_ACK, control)
                &&& final(state)@ == old(state)@.consume_control(Direction::In)
            },
    {
        let empty: [u8; 0] = [];
        let result = self.prepare_in(state, memory, &empty, register::UEP_R_RES_ACK, control);
        assert(memory@ =~= old(memory)@);
        match result {
            Some(actions) => Some(
                (ControlTransferGuard::new(Direction::In, self.reset_generation), actions),
            ),
            None => None,
        }
    }

    /// The guard of a stage that this control transfer arms.
    pub open spec fn guard(self, direction: Direction) -> ControlTransferGuard {
        ControlTransferGuard { direction, reset_generation: self.reset_generation, armed: true }
    }

    /// Ends the status stage after its packet was taken: endpoint zero waits for
    /// the next SETUP packet, and the address, if the request assigned one, is
    /// installed. `dev_ad` is the device address register.
    pub fn finish_status(
        &self,
        guard: &mut ControlTransferGuard,
        state: &UsbState,
        address: Option<u8>,
        dev_ad: u8,
    ) -> (result: Option<Vec<Action>>)
        ensures
            !current(state@, old(guard).reset_generation) ==> {
                &&& result is None
                &&& *final(guard) == *old(guard)
            },
            current(state@, old(guard).reset_generation) ==> {
                &&& result matches Some(actions)
                &&& actions@ == status_actions(address, dev_ad)
                &&& *final(guard) == (ControlTransferGuard { armed: false, ..*old(guard) })
            },
    {
        if !is_current(state, guard.reset_generation) {
            return None;
        }
        proof {
            register::lemma_constants();
        }
        let mut actions: Vec<Action> = Vec::new();
        actions.push(
            Action::Write8 {
                offset: register::endpoint_control(0),
                value: register::UEP_R_RES_ACK | register::UEP_T_RES_NAK,
            },
        );
        if let Some(address) = address {
            actions.push(
                Action::Write8 {
                    offset: register::DEV_AD,
                    value: (dev_ad & 0x80) | (address & 0x7f),
                },
            );
        }
        guard.disarm();
        assert(actions@ =~= status_actions(address, dev_ad));
        Some(actions)
    }

    /// Begins to receive a data packet of a control write.
    pub fn begin_data_out(&self, state: &UsbState, control: u8) -> (result: Result<
        (ControlTransferGuard, Action),
        EndpointError,
    >)
        ensures
            result == (if current(state@, self.reset_generation) {
                Ok::<(ControlTransferGuard, Action), EndpointError>(
                    (
                        self.guard(Direction::Out),
                        register::write_control(
                            0,
                            register::with_rx(control, register::UEP_R_RES_ACK),
                        ),
                    ),
                )
            } else {
                Err(EndpointError::Disabled)
            }),
    {
        if !is_current(state, self.reset_generation) {
            return Err(EndpointError::Disabled);
        }
        let action = Action::Write8 {
            offset: register::endpoint_control(0),
            value: register::set_rx(control, register::UEP_R_RES_ACK),
        };
        Ok((ControlTransferGuard::new(Direction::Out, self.reset_generation), action))
    }

    /// Ends a data packet of `length` bytes of a control write by copying it to
    /// the start of `output`.
    pub fn finish_data_out(
        &self,
        guard: &mut ControlTransferGuard,
        state: &UsbState,
        memory: &PacketMemory,
        length: usize,
        output: &mut [u8],
    ) -> (result: Result<usize, EndpointError>)
        requires
            length <= old(output)@.len() && current(state@, old(guard).reset_generation) ==> length
                <= EP_PACKET_SIZE,
        ensures
            result == (if length > old(output)@.len() {
                Err::<usize, EndpointError>(EndpointError::BufferOverflow)
            } else if !current(state@, old(guard).reset_generation) {
                Err(EndpointError::Disabled)
            } else {
                Ok(length)
            }),
            *final(guard) == (ControlTransferGuard {
                armed: if result is Ok {
                    false
                } else {
                    old(guard).armed
                },
                ..*old(guard)
            }),
            final(output)@ == (if result is Ok {
                bank::overwrite(old(output)@, 0, memory@.control.take(length as int))
            } else {
                old(output)@
            }),
    {
        if length > output.len() {
            return Err(EndpointError::BufferOverflow);
        }
        if !is_current(state, guard.reset_generation) {
            return Err(EndpointError::Disabled);
        }
        memory.read_endpoint_buffer(Bank::Control, length, output);
        guard.disarm();
        Ok(length)
    }

    /// Begins to send a data packet of a control read. With the last packet the
    /// endpoint also accepts the host's empty status packet.
    pub fn begin_data_in(
        &self,
        state: &mut UsbState,
        memory: &mut PacketMemory,
        data: &[u8],
        last: bool,
        control: u8,
    ) -> (result: Result<(ControlTransferGuard, Vec<Action>), EndpointError>)
        requires
            self.wf(),
        ensures
            data@.len() > self.max_packet_size ==> {
                &&& result == Err::<(ControlTransferGuard, Vec<Action>), _>(
                    EndpointError::BufferOverflow,
                )
                &&& final(state)@ == old(state)@
                &&& final(memory)@ == old(memory)@
            },
            data@.len() <= self.max_packet_size && !current(
                old(state)@,
                self.reset_generation,
            ) ==> {
                &&& result == Err::<(ControlTransferGuard, Vec<Action>), _>(EndpointError::Disabled)
                &&& final(state)@ == old(state)@
                &&& final(memory)@ == old(memory)@
            },
            data@.len() <= self.max_packet_size && current(
                old(state)@,
                self.reset_generation,
            ) ==> {
                &&& result matches Ok((guard, actions))
                &&& guard == self.guard(Direction::In)
                &&& actions@ == prepare_actions(
                    data@.len() as int,
                    if last {
                        register::UEP_R_RES_ACK
                    } else {
                        register::UEP_R_RES_NAK
                    },
                    control,
                )
                &&& final(state)@ == old(state)@.consume_control(Direction::In)
                &&& final(memory)@ == old(memory)@.written(Bank::Control, data@)
            },
    {
        if data.len() > self.max_packet_size {
            return Err(EndpointError::BufferOverflow);
        }
        let rx_status: u8 = if last {
            register::UEP_R_RES_ACK
        } else {
            register::UEP_R_RES_NAK
        };
        match self.prepare_in(state, memory, data, rx_status, control) {
            Some(actions) => Ok(
                (ControlTransferGuard::new(Direction::In, self.reset_generation), actions),
            ),
            None => Err(EndpointError::Disabled),
        }
    }

    /// Ends a data packet of a control read after the host took it. After the
    /// last one the host sends its status packet.
    pub fn finish_data_in(
        &self,
        guard: &mut ControlTransferGuard,
        state: &UsbState,
        last: bool,
    ) -> (result: Result<Option<Action>, EndpointError>)
        ensures
            result == (if !last {
                Ok::<Option<Action>, EndpointError>(None)
            } else if current(state@, old(guard).reset_generation) {
                Ok(Some(register::write_control(0, status_out_control())))
            } else {
                Err(EndpointError::Disabled)
            }),
            *final(guard) == (ControlTransferGuard {
                armed: if result is Ok {
                    false
                } else {
                    old(guard).armed
                },
                ..*old(guard)
            }),
    {
        if !last {
            guard.disarm();
            return Ok(None);
        }
        if !is_current(state, guard.reset_generation) {
            return Err(EndpointError::Disabled);
        }
        proof {
            register::lemma_constants();
        }
        guard.disarm();
        let value: u8 = register::UEP_R_TOG | register::UEP_T_TOG | register::UEP_R_RES_ACK
            | register::UEP_T_RES_NAK;
        Ok(Some(Action::Write8 { offset: register::endpoint_control(0), value }))
    }

    /// Rejects the request: both directions of endpoint zero stall until the
    /// next SETUP packet.
    pub fn reject(&self) -> (action: Action)
        ensures
            action == register::write_control(0, reject_control()),
    {
        proof {
            register::lemma_constants();
        }
        Action::Write8 {
            offset: register::endpoint_control(0),
            value: register::UEP_R_RES_STALL | register::UEP_T_RES_STALL,
        }
    }
}

} // verus!
