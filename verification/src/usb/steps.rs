//! What each step of a transfer does, told by the state before and after it.

use vstd::prelude::*;

use crate::bits;
use crate::chip::Chip;
use crate::interrupt::typelevel;
use crate::interrupt::typelevel::Binding;
use crate::pfic::PficAction;
use crate::usb::address::{Direction, EndpointAddress};
use crate::usb::bank::PacketMemory;
use crate::usb::bus::{Bus, DmaLayout};
use crate::usb::control::{ControlPipe, ControlTransferGuard};
use crate::usb::driver::Driver;
use crate::usb::effects;
use crate::usb::endpoint::{Endpoint, TransferGuard, TransferTicket};
use crate::usb::fields;
use crate::usb::interrupt::InterruptHandler;
use crate::usb::register::{Action, Wake};
use crate::usb::stage::ControlStage;
use crate::usb::state::{UsbModel, UsbState};
use crate::usb::transfer::{ReadStage, WriteStage};
use crate::usb::types::{EndpointError, EndpointInfo};

verus! {

/// Whether the transfer of endpoint zero was reset, or overtaken by a SETUP packet.
pub open spec fn is_stale(model: UsbModel, generation: u32) -> bool {
    model.reset_generation != generation || model.setup_pending
}

/// Whether endpoint zero has no packet in `direction`, and all else is as before.
pub open spec fn forgets_control_packet(
    later: UsbModel,
    model: UsbModel,
    direction: Direction,
) -> bool {
    let opposite = fields::opposite(direction);
    &&& !later.side(direction).complete.contains(0)
    &&& effects::same_packets_but(later.side(direction), model.side(direction), 0)
    &&& later.side(direction).completions == model.side(direction).completions
    &&& later.side(opposite) == model.side(opposite)
    &&& later.out_lengths == model.out_lengths
    &&& effects::same_setup(later, model)
    &&& effects::same_configuration(later, model)
}

/// A request for the status stage of a transfer that goes on offers an empty packet and
/// accepts OUT packets; both toggles are kept, and an old IN packet is forgotten. A stale
/// one is refused without an effect.
pub proof fn status_request(
    pipe: &mut ControlPipe,
    state: &mut UsbState,
    memory: &mut PacketMemory,
    address: Option<u8>,
    control: u8,
    dev_ad: u8,
    result: (ControlStage<()>, Vec<Action>),
)
    requires
        call_ensures(
            ControlPipe::status_in,
            (pipe, ControlStage::Request, state, memory, address, control, dev_ad),
            result,
        ),
    ensures
        ({
            let model = old(state)@;
            let actions = result.1@;
            &&& is_stale(model, old(pipe).reset_generation) ==> result.0 == ControlStage::<()>::Done(
                Err(EndpointError::Disabled),
            ) && actions.len() == 0 && final(state)@ == model
            &&& !is_stale(model, old(pipe).reset_generation) ==> {
                &&& result.0 matches ControlStage::Wait(guard) && guard.armed && guard.direction
                    == Direction::In && guard.reset_generation == model.reset_generation
                &&& effects::leaves(actions, 0x20, 0)
                &&& exists|value: u8| #[trigger]
                    effects::leaves(actions, 0x22, value) && fields::tx_answer(value) == 0
                        && fields::rx_answer(value) == 0 && fields::rx_data(value)
                        == fields::rx_data(control) && fields::tx_data(value) == fields::tx_data(
                        control,
                    )
                &&& effects::writes_only(actions, 0x20, 0x22)
                &&& forgets_control_packet(final(state)@, model, Direction::In)
            }
            &&& final(memory)@ == old(memory)@
            &&& *final(pipe) == *old(pipe)
        }),
{
    if !is_stale(old(state)@, old(pipe).reset_generation) {
        effects::status_stage_offers_empty_packet(
            *old(pipe),
            old(state)@,
            address,
            control,
            dev_ad,
        );
    }
}

/// Finishing the status stage of a transfer that goes on gives the device the assigned
/// address, all seven bits of it and with the top bit of the register kept, or keeps the
/// one that it had. Endpoint zero accepts OUT, defers IN and is back at DATA0. A stale
/// stage fails without an effect.
pub proof fn status_finish(
    pipe: &mut ControlPipe,
    guard: ControlTransferGuard,
    length: usize,
    state: &mut UsbState,
    memory: &mut PacketMemory,
    address: Option<u8>,
    control: u8,
    dev_ad: u8,
    result: (ControlStage<()>, Vec<Action>),
)
    requires
        call_ensures(
            ControlPipe::status_in,
            (pipe, ControlStage::Finish(guard, length), state, memory, address, control, dev_ad),
            result,
        ),
    ensures
        ({
            let actions = result.1@;
            &&& is_stale(old(state)@, guard.reset_generation) ==> result.0 == ControlStage::<
                (),
            >::Release(guard, EndpointError::Disabled) && actions.len() == 0
            &&& !is_stale(old(state)@, guard.reset_generation) ==> {
                &&& result.0 == ControlStage::Done(Ok::<(), EndpointError>(()))
                &&& address matches Some(assigned) ==> exists|value: u8| #[trigger]
                    effects::leaves(actions, 0x03, value) && value % 128 == assigned % 128
                        && value / 128 == dev_ad / 128
                &&& address is None ==> forall|k: int|
                    0 <= k < actions.len() ==> !effects::writes(#[trigger] actions[k], 0x03)
                &&& exists|value: u8| #[trigger]
                    effects::leaves(actions, 0x22, value) && fields::rx_answer(value) == 0
                        && fields::tx_answer(value) == 2 && fields::rx_data(value) == 0
                        && fields::tx_data(value) == 0
                &&& effects::writes_only(actions, 0x22, 0x03)
            }
            &&& final(state)@ == old(state)@
            &&& final(memory)@ == old(memory)@
            &&& *final(pipe) == *old(pipe)
        }),
{
    if !is_stale(old(state)@, guard.reset_generation) {
        effects::status_stage_installs_address(
            *old(pipe),
            guard,
            length,
            old(state)@,
            address,
            control,
            dev_ad,
        );
    }
}

/// A request to send a data packet of a control read: too long a packet is refused, then
/// a stale transfer; otherwise the packet is offered with its length. OUT packets are
/// deferred until the last packet, with which the host's status packet is accepted. Both
/// toggles are kept, and an old IN packet is forgotten.
pub proof fn data_in_request(
    pipe: &mut ControlPipe,
    state: &mut UsbState,
    memory: &mut PacketMemory,
    data: &[u8],
    last: bool,
    control: u8,
    result: (ControlStage<()>, Vec<Action>),
)
    requires
        call_ensures(
            ControlPipe::data_in,
            (pipe, ControlStage::Request, state, memory, data, last, control),
            result,
        ),
        old(pipe).wf(),
    ensures
        ({
            let model = old(state)@;
            let actions = result.1@;
            let length = data@.len();
            let stale = is_stale(model, old(pipe).reset_generation);
            &&& length > old(pipe).max_packet_size ==> result.0 == ControlStage::<()>::Done(
                Err(EndpointError::BufferOverflow),
            )
            &&& length <= old(pipe).max_packet_size && stale ==> result.0 == ControlStage::<
                (),
            >::Done(Err(EndpointError::Disabled))
            &&& length > old(pipe).max_packet_size || stale ==> actions.len() == 0 && final(state)@
                == model
            &&& length <= old(pipe).max_packet_size && !stale ==> {
                &&& result.0 matches ControlStage::Wait(guard) && guard.armed && guard.direction
                    == Direction::In && guard.reset_generation == model.reset_generation
                &&& effects::leaves(actions, 0x20, length as u8)
                &&& exists|value: u8| #[trigger]
                    effects::leaves(actions, 0x22, value) && fields::tx_answer(value) == 0
                        && fields::rx_answer(value) == (if last {
                        0u8
                    } else {
                        2
                    }) && fields::rx_data(value) == fields::rx_data(control) && fields::tx_data(
                        value,
                    ) == fields::tx_data(control)
                &&& effects::writes_only(actions, 0x20, 0x22)
                &&& forgets_control_packet(final(state)@, model, Direction::In)
            }
            &&& *final(pipe) == *old(pipe)
        }),
{
    if !is_stale(old(state)@, old(pipe).reset_generation) {
        effects::data_in_offers_packet(
            *old(pipe),
            old(state)@,
            data@.len() as int,
            last,
            control,
        );
    }
}

/// When the host has taken a data packet of a control read, the packet is done: without
/// an effect before the last one, and with the last one endpoint zero accepts the host's
/// status packet, OUT at DATA1. A last packet of a stale transfer fails.
pub proof fn data_in_finish(
    pipe: &mut ControlPipe,
    guard: ControlTransferGuard,
    taken: usize,
    state: &mut UsbState,
    memory: &mut PacketMemory,
    data: &[u8],
    last: bool,
    control: u8,
    result: (ControlStage<()>, Vec<Action>),
)
    requires
        call_ensures(
            ControlPipe::data_in,
            (pipe, ControlStage::Finish(guard, taken), state, memory, data, last, control),
            result,
        ),
        old(pipe).wf(),
    ensures
        ({
            let actions = result.1@;
            let stale = is_stale(old(state)@, guard.reset_generation);
            &&& !last ==> result.0 == ControlStage::Done(Ok::<(), EndpointError>(()))
                && actions.len() == 0
            &&& last && stale ==> result.0 == ControlStage::<()>::Release(
                guard,
                EndpointError::Disabled,
            ) && actions.len() == 0
            &&& last && !stale ==> {
                &&& result.0 == ControlStage::Done(Ok::<(), EndpointError>(()))
                &&& exists|value: u8| #[trigger]
                    effects::leaves(actions, 0x22, value) && fields::rx_data(value) == 1
                        && fields::rx_answer(value) == 0 && fields::tx_answer(value) == 2
                        && fields::tx_data(value) == 1
                &&& effects::writes_only(actions, 0x22, 0x22)
            }
            &&& final(state)@ == old(state)@
            &&& final(memory)@ == old(memory)@
            &&& *final(pipe) == *old(pipe)
        }),
{
    if !is_stale(old(state)@, guard.reset_generation) {
        effects::data_in_ends_with_status(
            *old(pipe),
            guard,
            taken,
            old(state)@,
            data@.len() as int,
            last,
            control,
        );
    }
}

/// A request to receive a data packet of a control write opens endpoint zero for it and
/// keeps everything else. A stale one is refused without an effect.
pub proof fn data_out_request(
    pipe: &mut ControlPipe,
    state: &mut UsbState,
    memory: &PacketMemory,
    output: &mut [u8],
    control: u8,
    result: (ControlStage<usize>, Vec<Action>),
)
    requires
        call_ensures(
            ControlPipe::data_out,
            (pipe, ControlStage::Request, state, memory, output, control),
            result,
        ),
    ensures
        ({
            let model = old(state)@;
            let actions = result.1@;
            &&& is_stale(model, old(pipe).reset_generation) ==> result.0 == ControlStage::<
                usize,
            >::Done(Err(EndpointError::Disabled)) && actions.len() == 0
            &&& !is_stale(model, old(pipe).reset_generation) ==> {
                &&& result.0 matches ControlStage::Wait(guard) && guard.armed && guard.direction
                    == Direction::Out && guard.reset_generation == model.reset_generation
                &&& exists|value: u8| #[trigger]
                    effects::leaves(actions, 0x22, value) && fields::rx_answer(value) == 0
                        && fields::rx_data(value) == fields::rx_data(control)
                        && fields::same_elsewhere(value, control, Direction::Out)
                &&& effects::writes_only(actions, 0x22, 0x22)
            }
            &&& final(state)@ == model
            &&& final(output)@ == old(output)@
            &&& *final(pipe) == *old(pipe)
        }),
{
    if !is_stale(old(state)@, old(pipe).reset_generation) {
        effects::data_out_opens_endpoint_zero(
            *old(pipe),
            ControlTransferGuard {
                direction: Direction::Out,
                reset_generation: old(state)@.reset_generation,
                armed: true,
            },
            old(state)@,
            old(output)@.len() as int,
            0,
            control,
        );
    }
}

/// A received data packet of a control write is given with its length. One that does not
/// fit the buffer fails, then one of a stale transfer.
pub proof fn data_out_finish(
    pipe: &mut ControlPipe,
    guard: ControlTransferGuard,
    length: usize,
    state: &mut UsbState,
    memory: &PacketMemory,
    output: &mut [u8],
    control: u8,
    result: (ControlStage<usize>, Vec<Action>),
)
    requires
        call_ensures(
            ControlPipe::data_out,
            (pipe, ControlStage::Finish(guard, length), state, memory, output, control),
            result,
        ),
    ensures
        result.0 == (if length > old(output)@.len() {
            ControlStage::<usize>::Release(guard, EndpointError::BufferOverflow)
        } else if is_stale(old(state)@, guard.reset_generation) {
            ControlStage::<usize>::Release(guard, EndpointError::Disabled)
        } else {
            ControlStage::<usize>::Done(Ok(length))
        }),
        result.1@.len() == 0,
        final(state)@ == old(state)@,
        *final(pipe) == *old(pipe),
{
}

/// Whether a stage of endpoint zero that waits went on as it should: a stale one fails and
/// the pipe follows the present reset generation, one whose packet is there takes it and
/// goes on with the length of the last one received, and any other waits.
pub open spec fn goes_on<R>(
    guard: ControlTransferGuard,
    pipe: ControlPipe,
    model: UsbModel,
    direction: Direction,
    next: ControlStage<R>,
    later_pipe: ControlPipe,
    later: UsbModel,
) -> bool {
    if is_stale(model, pipe.reset_generation) {
        &&& next == ControlStage::<R>::Release(guard, EndpointError::Disabled)
        &&& later == model
        &&& later_pipe.reset_generation == model.reset_generation
        &&& later_pipe.max_packet_size == pipe.max_packet_size
    } else {
        &&& next == (if model.side(direction).complete.contains(0) {
            ControlStage::<R>::Finish(guard, model.out_lengths[0] as usize)
        } else {
            ControlStage::<R>::Wait(guard)
        })
        &&& forgets_control_packet(later, model, direction)
        &&& later_pipe == pipe
    }
}

/// The status stage waits for the host to take its packet.
pub proof fn status_wait(
    pipe: &mut ControlPipe,
    guard: ControlTransferGuard,
    state: &mut UsbState,
    memory: &mut PacketMemory,
    address: Option<u8>,
    control: u8,
    dev_ad: u8,
    result: (ControlStage<()>, Vec<Action>),
)
    requires
        call_ensures(
            ControlPipe::status_in,
            (pipe, ControlStage::Wait(guard), state, memory, address, control, dev_ad),
            result,
        ),
    ensures
        goes_on(
            guard,
            *old(pipe),
            old(state)@,
            Direction::In,
            result.0,
            *final(pipe),
            final(state)@,
        ),
        result.1@.len() == 0,
        final(memory)@ == old(memory)@,
{
}

/// A control read waits for the host to take its packet.
pub proof fn data_in_wait(
    pipe: &mut ControlPipe,
    guard: ControlTransferGuard,
    state: &mut UsbState,
    memory: &mut PacketMemory,
    data: &[u8],
    last: bool,
    control: u8,
    result: (ControlStage<()>, Vec<Action>),
)
    requires
        call_ensures(
            ControlPipe::data_in,
            (pipe, ControlStage::Wait(guard), state, memory, data, last, control),
            result,
        ),
        old(pipe).wf(),
    ensures
        goes_on(
            guard,
            *old(pipe),
            old(state)@,
            Direction::In,
            result.0,
            *final(pipe),
            final(state)@,
        ),
        result.1@.len() == 0,
        final(memory)@ == old(memory)@,
{
}

/// A control write waits for a packet of the host.
pub proof fn data_out_wait(
    pipe: &mut ControlPipe,
    guard: ControlTransferGuard,
    state: &mut UsbState,
    memory: &PacketMemory,
    output: &mut [u8],
    control: u8,
    result: (ControlStage<usize>, Vec<Action>),
)
    requires
        call_ensures(
            ControlPipe::data_out,
            (pipe, ControlStage::Wait(guard), state, memory, output, control),
            result,
        ),
    ensures
        goes_on(
            guard,
            *old(pipe),
            old(state)@,
            Direction::Out,
            result.0,
            *final(pipe),
            final(state)@,
        ),
        result.1@.len() == 0,
        final(output)@ == old(output)@,
{
}

/// Whether a stage of endpoint zero is outstanding: armed, not stale, and without a packet
/// in its direction.
pub open spec fn is_outstanding(guard: ControlTransferGuard, model: UsbModel) -> bool {
    let side = match guard.direction {
        Direction::In => model.input,
        Direction::Out => model.output,
    };
    guard.armed && !is_stale(model, guard.reset_generation) && !side.complete.contains(0)
}

/// Whether a transfer of another endpoint is outstanding: armed, not started over, and its
/// packet not counted.
pub open spec fn is_transferring(guard: TransferGuard, model: UsbModel) -> bool {
    let side = match guard.ticket.direction {
        Direction::In => model.input,
        Direction::Out => model.output,
    };
    guard.armed && effects::belongs(guard.ticket, model)
        && side.completions[guard.ticket.index as int] == guard.completion_generation
}

/// Whether `value` closes `direction` of a control register: an open endpoint defers the
/// host, any other answer and all else is kept.
pub open spec fn closes(value: u8, control: u8, direction: Direction) -> bool {
    &&& fields::same_elsewhere(value, control, direction)
    &&& fields::data(value, direction) == fields::data(control, direction)
    &&& fields::answer(value, direction) == (if fields::answer(control, direction) == 0 {
        2
    } else {
        fields::answer(control, direction)
    })
}

/// Whether the actions close `direction` of endpoint `index` exactly if `outstanding`, and
/// do nothing else.
pub open spec fn closes_if(
    actions: Seq<Action>,
    outstanding: bool,
    index: int,
    control: u8,
    direction: Direction,
) -> bool {
    &&& !outstanding ==> actions.len() == 0
    &&& outstanding ==> actions.len() == 1 && (actions[0] matches Action::Write8 { offset, value }
        && offset == 0x22 + 4 * index && closes(value, control, direction))
}

/// A control read or status stage that failed closes endpoint zero if it is outstanding,
/// and ends with its error.
pub proof fn failed_in_stage_ends(
    pipe: &mut ControlPipe,
    other: &mut ControlPipe,
    guard: ControlTransferGuard,
    error: EndpointError,
    state: &mut UsbState,
    later: &mut UsbState,
    memory: &mut PacketMemory,
    banks: &mut PacketMemory,
    data: &[u8],
    last: bool,
    address: Option<u8>,
    control: u8,
    dev_ad: u8,
    read: (ControlStage<()>, Vec<Action>),
    status: (ControlStage<()>, Vec<Action>),
)
    requires
        call_ensures(
            ControlPipe::data_in,
            (pipe, ControlStage::Release(guard, error), state, memory, data, last, control),
            read,
        ),
        call_ensures(
            ControlPipe::status_in,
            (other, ControlStage::Release(guard, error), later, banks, address, control, dev_ad),
            status,
        ),
        old(pipe).wf(),
    ensures
        read.0 == ControlStage::<()>::Done(Err(error)),
        status.0 == ControlStage::<()>::Done(Err(error)),
        closes_if(read.1@, is_outstanding(guard, old(state)@), 0, control, guard.direction),
        closes_if(status.1@, is_outstanding(guard, old(later)@), 0, control, guard.direction),
        final(state)@ == old(state)@,
        final(later)@ == old(later)@,
{
    effects::release_closes_only_open_endpoint(control, guard.direction);
}

/// A control write that failed closes endpoint zero if it is outstanding, and ends with
/// its error.
pub proof fn failed_out_stage_ends(
    pipe: &mut ControlPipe,
    guard: ControlTransferGuard,
    error: EndpointError,
    state: &mut UsbState,
    memory: &PacketMemory,
    output: &mut [u8],
    control: u8,
    result: (ControlStage<usize>, Vec<Action>),
)
    requires
        call_ensures(
            ControlPipe::data_out,
            (pipe, ControlStage::Release(guard, error), state, memory, output, control),
            result,
        ),
    ensures
        result.0 == ControlStage::<usize>::Done(Err(error)),
        closes_if(result.1@, is_outstanding(guard, old(state)@), 0, control, guard.direction),
        final(state)@ == old(state)@,
        final(output)@ == old(output)@,
{
    effects::release_closes_only_open_endpoint(control, guard.direction);
}

/// A write that failed closes its endpoint if it is outstanding, and ends with its error.
pub proof fn failed_write_ends(
    endpoint: Endpoint,
    guard: TransferGuard,
    error: EndpointError,
    state: &mut UsbState,
    memory: &mut PacketMemory,
    data: &[u8],
    control: u8,
    result: (WriteStage, Vec<Action>),
)
    requires
        call_ensures(
            Endpoint::write,
            (&endpoint, WriteStage::Release(guard, error), state, memory, data, control),
            result,
        ),
        endpoint.wf(),
        WriteStage::Release(guard, error).wf(),
    ensures
        result.0 == WriteStage::Done(Err(error)),
        closes_if(
            result.1@,
            is_transferring(guard, old(state)@),
            guard.ticket.index as int,
            control,
            guard.ticket.direction,
        ),
        final(state)@ == old(state)@,
        final(memory)@ == old(memory)@,
{
    effects::release_closes_only_open_endpoint(control, guard.ticket.direction);
}

/// A read that failed closes its endpoint if it is outstanding, and ends with its error.
pub proof fn failed_read_ends(
    endpoint: Endpoint,
    guard: TransferGuard,
    error: EndpointError,
    state: &mut UsbState,
    memory: &PacketMemory,
    output: &mut [u8],
    control: u8,
    result: (ReadStage, Vec<Action>),
)
    requires
        call_ensures(
            Endpoint::read,
            (&endpoint, ReadStage::Release(guard, error), state, memory, output, control),
            result,
        ),
        endpoint.wf(),
        ReadStage::Release(guard, error).wf(),
    ensures
        result.0 == ReadStage::Done(Err(error)),
        closes_if(
            result.1@,
            is_transferring(guard, old(state)@),
            guard.ticket.index as int,
            control,
            guard.ticket.direction,
        ),
        final(state)@ == old(state)@,
        final(output)@ == old(output)@,
{
    effects::release_closes_only_open_endpoint(control, guard.ticket.direction);
}

/// Dropping a stage of endpoint zero closes it exactly if the stage was armed and is
/// outstanding.
pub proof fn dropped_stage<R>(
    stage: ControlStage<R>,
    state: &UsbState,
    control: u8,
    value: Option<u8>,
)
    requires
        call_ensures(ControlStage::<R>::cancel, (&stage, state, control), value),
    ensures
        ({
            let guard = match stage {
                ControlStage::Request => None,
                ControlStage::Wait(guard) => Some(guard),
                ControlStage::Finish(guard, _) => Some(guard),
                ControlStage::Release(guard, _) => Some(guard),
                ControlStage::Done(_) => None,
            };
            &&& value is Some <==> guard is Some && is_outstanding(guard->Some_0, state@)
            &&& value matches Some(byte) ==> closes(byte, control, guard->Some_0.direction)
        }),
{
    effects::release_closes_only_open_endpoint(control, Direction::In);
    effects::release_closes_only_open_endpoint(control, Direction::Out);
}

/// Dropping a write closes its endpoint exactly if the write was armed and is
/// outstanding.
pub proof fn dropped_write(
    stage: WriteStage,
    state: &UsbState,
    control: u8,
    value: Option<u8>,
)
    requires
        call_ensures(WriteStage::cancel, (&stage, state, control), value),
        stage.wf(),
    ensures
        ({
            let guard = match stage {
                WriteStage::Request => None,
                WriteStage::Arm(_) => None,
                WriteStage::Wait(guard) => Some(guard),
                WriteStage::Release(guard, _) => Some(guard),
                WriteStage::Done(_) => None,
            };
            &&& value is Some <==> guard is Some && is_transferring(guard->Some_0, state@)
            &&& value matches Some(byte) ==> closes(byte, control, guard->Some_0.ticket.direction)
        }),
{
    effects::release_closes_only_open_endpoint(control, Direction::In);
    effects::release_closes_only_open_endpoint(control, Direction::Out);
}

/// Dropping a read closes its endpoint exactly if the read was armed and is outstanding.
pub proof fn dropped_read(stage: ReadStage, state: &UsbState, control: u8, value: Option<u8>)
    requires
        call_ensures(ReadStage::cancel, (&stage, state, control), value),
        stage.wf(),
    ensures
        ({
            let guard = match stage {
                ReadStage::Wait(guard) => Some(guard),
                ReadStage::Release(guard, _) => Some(guard),
                _ => None,
            };
            &&& value is Some <==> guard is Some && is_transferring(guard->Some_0, state@)
            &&& value matches Some(byte) ==> closes(byte, control, guard->Some_0.ticket.direction)
        }),
{
    effects::release_closes_only_open_endpoint(control, Direction::In);
    effects::release_closes_only_open_endpoint(control, Direction::Out);
}

/// A request to write puts the packet where the controller sends from, byte for byte, if
/// it is not too long and the endpoint is enabled. Nothing else changes.
pub proof fn write_request(
    endpoint: Endpoint,
    state: &mut UsbState,
    memory: &mut PacketMemory,
    data: &[u8],
    control: u8,
    result: (WriteStage, Vec<Action>),
    i: int,
)
    requires
        call_ensures(
            Endpoint::write,
            (&endpoint, WriteStage::Request, state, memory, data, control),
            result,
        ),
        endpoint.wf(),
        old(memory)@.wf(),
        0 <= i < 384,
    ensures
        ({
            let model = old(state)@;
            let index = endpoint.info.addr.raw as int % 128;
            let start = (index - 1) * 128 + (if model.output.allocated.contains(index) {
                64int
            } else {
                0
            });
            let accepted = data@.len() <= endpoint.info.max_packet_size
                && model.input.enabled.contains(index);
            &&& data@.len() > endpoint.info.max_packet_size ==> result.0 == WriteStage::Done(
                Err(EndpointError::BufferOverflow),
            )
            &&& data@.len() <= endpoint.info.max_packet_size && !accepted ==> result.0
                == WriteStage::Done(Err(EndpointError::Disabled))
            &&& accepted ==> (result.0 matches WriteStage::Arm(ticket) && ticket.index == index
                && ticket.direction == Direction::In && effects::belongs(ticket, model))
            &&& final(memory)@.endpoints[i] == (if accepted && start <= i < start + data@.len() {
                data@[i - start]
            } else {
                old(memory)@.endpoints[i]
            })
            &&& final(memory)@.control == old(memory)@.control
            &&& final(state)@ == model
            &&& result.1@.len() == 0
        }),
{
    effects::address_is_number_and_direction(endpoint.info.addr);
}

/// Arming a write announces the packet's length and opens the endpoint for it; the rest of
/// the endpoint's control register is kept. The write then waits for the next packet that
/// is counted. A write of an endpoint that was started over is refused without an effect.
pub proof fn write_arm(
    endpoint: Endpoint,
    ticket: TransferTicket,
    state: &mut UsbState,
    memory: &mut PacketMemory,
    data: &[u8],
    control: u8,
    result: (WriteStage, Vec<Action>),
)
    requires
        call_ensures(
            Endpoint::write,
            (&endpoint, WriteStage::Arm(ticket), state, memory, data, control),
            result,
        ),
        endpoint.wf(),
        WriteStage::Arm(ticket).wf(),
        data@.len() <= 64,
    ensures
        ({
            let model = old(state)@;
            let index = ticket.index as int;
            let actions = result.1@;
            &&& !effects::belongs(ticket, model) ==> result.0 == WriteStage::Done(
                Err(EndpointError::Disabled),
            ) && actions.len() == 0 && final(state)@ == model
            &&& effects::belongs(ticket, model) ==> {
                &&& result.0 matches WriteStage::Wait(guard) && guard.armed && guard.ticket
                    == ticket && guard.completion_generation == model.input.completions[index]
                &&& effects::leaves(actions, 0x20 + 4 * index, data@.len() as u8)
                &&& exists|value: u8| #[trigger]
                    effects::leaves(actions, 0x22 + 4 * index, value) && fields::tx_answer(value)
                        == 0 && fields::tx_data(value) == fields::tx_data(control)
                        && fields::same_elsewhere(value, control, Direction::In)
                &&& effects::writes_only(actions, 0x20 + 4 * index, 0x22 + 4 * index)
                &&& !final(state)@.input.complete.contains(index)
                &&& effects::same_packets_but(final(state)@.input, model.input, index)
                &&& final(state)@.input.completions == model.input.completions
                &&& final(state)@.output == model.output
                &&& final(state)@.out_lengths == model.out_lengths
                &&& effects::same_setup(final(state)@, model)
                &&& effects::same_configuration(final(state)@, model)
            }
            &&& final(memory)@ == old(memory)@
        }),
{
    if effects::belongs(ticket, old(state)@) {
        effects::armed_write_opens_endpoint(
            endpoint,
            ticket,
            old(state)@,
            data@.len() as int,
            control,
        );
    }
}

/// A request to read is accepted exactly if the endpoint is enabled.
pub proof fn read_request(
    endpoint: Endpoint,
    state: &mut UsbState,
    memory: &PacketMemory,
    output: &mut [u8],
    control: u8,
    result: (ReadStage, Vec<Action>),
)
    requires
        call_ensures(
            Endpoint::read,
            (&endpoint, ReadStage::Request, state, memory, output, control),
            result,
        ),
        endpoint.wf(),
    ensures
        ({
            let model = old(state)@;
            let index = endpoint.info.addr.raw as int % 128;
            &&& !model.output.enabled.contains(index) ==> result.0 == ReadStage::Done(
                Err(EndpointError::Disabled),
            )
            &&& model.output.enabled.contains(index) ==> (result.0 matches ReadStage::Start(ticket)
                && ticket.index == index && ticket.direction == Direction::Out
                && effects::belongs(ticket, model))
            &&& result.1@.len() == 0
            &&& final(state)@ == model
            &&& final(output)@ == old(output)@
        }),
{
    effects::address_is_number_and_direction(endpoint.info.addr);
}

/// A read begins with the packet that was received before, if there is one, which it
/// takes. Otherwise it opens the endpoint for one, keeping the rest of the control
/// register, and waits for the next that is counted. A read of an endpoint that was
/// started over is refused without an effect.
pub proof fn read_start(
    endpoint: Endpoint,
    ticket: TransferTicket,
    state: &mut UsbState,
    memory: &PacketMemory,
    output: &mut [u8],
    control: u8,
    result: (ReadStage, Vec<Action>),
)
    requires
        call_ensures(
            Endpoint::read,
            (&endpoint, ReadStage::Start(ticket), state, memory, output, control),
            result,
        ),
        endpoint.wf(),
        ReadStage::Start(ticket).wf(),
    ensures
        ({
            let model = old(state)@;
            let index = ticket.index as int;
            let actions = result.1@;
            let received = model.output.complete.contains(index);
            &&& !effects::belongs(ticket, model) ==> result.0 == ReadStage::Done(
                Err(EndpointError::Disabled),
            ) && actions.len() == 0 && final(state)@ == model
            &&& effects::belongs(ticket, model) && received ==> result.0 == ReadStage::Confirm(
                ticket,
                model.out_lengths[index] as usize,
            ) && actions.len() == 0 && !final(state)@.output.complete.contains(index)
            &&& effects::belongs(ticket, model) && !received ==> {
                &&& result.0 matches ReadStage::Wait(guard) && guard.armed && guard.ticket
                    == ticket && guard.completion_generation == model.output.completions[index]
                &&& exists|value: u8| #[trigger]
                    effects::leaves(actions, 0x22 + 4 * index, value) && fields::rx_answer(value)
                        == 0 && fields::rx_data(value) == fields::rx_data(control)
                        && fields::same_elsewhere(value, control, Direction::Out)
                &&& effects::writes_only(actions, 0x22 + 4 * index, 0x22 + 4 * index)
            }
            &&& effects::same_packets_but(final(state)@.output, model.output, index)
            &&& final(state)@.output.completions == model.output.completions
            &&& final(state)@.input == model.input
            &&& final(state)@.out_lengths == model.out_lengths
            &&& effects::same_setup(final(state)@, model)
            &&& effects::same_configuration(final(state)@, model)
            &&& final(output)@ == old(output)@
        }),
{
    let model = old(state)@;
    if effects::belongs(ticket, model) && !model.output.complete.contains(ticket.index as int) {
        effects::armed_read_opens_endpoint(
            endpoint,
            ticket,
            model,
            old(output)@.len() as int,
            control,
        );
    }
}

/// A packet from before is given only if the endpoint was not started over meanwhile.
pub proof fn read_confirm(
    endpoint: Endpoint,
    ticket: TransferTicket,
    length: usize,
    state: &mut UsbState,
    memory: &PacketMemory,
    output: &mut [u8],
    control: u8,
    result: (ReadStage, Vec<Action>),
)
    requires
        call_ensures(
            Endpoint::read,
            (&endpoint, ReadStage::Confirm(ticket, length), state, memory, output, control),
            result,
        ),
        endpoint.wf(),
        ReadStage::Confirm(ticket, length).wf(),
    ensures
        result.0 == (if effects::belongs(ticket, old(state)@) {
            ReadStage::Copy(length)
        } else {
            ReadStage::Done(Err(EndpointError::Disabled))
        }),
        result.1@.len() == 0,
        final(state)@ == old(state)@,
        final(output)@ == old(output)@,
{
}

/// A read gives the bytes that the controller received into the endpoint's bank, if they
/// fit the caller's buffer, and leaves the rest of it alone.
pub proof fn read_copy(
    endpoint: Endpoint,
    length: usize,
    state: &mut UsbState,
    memory: &PacketMemory,
    output: &mut [u8],
    control: u8,
    result: (ReadStage, Vec<Action>),
    i: int,
)
    requires
        call_ensures(
            Endpoint::read,
            (&endpoint, ReadStage::Copy(length), state, memory, output, control),
            result,
        ),
        endpoint.wf(),
        memory@.wf(),
        length <= 64,
        0 <= i < old(output)@.len(),
    ensures
        result.0 == (if length <= old(output)@.len() {
            ReadStage::Done(Ok(length))
        } else {
            ReadStage::Done(Err(EndpointError::BufferOverflow))
        }),
        result.1@.len() == 0,
        final(state)@ == old(state)@,
        final(output)@.len() == old(output)@.len(),
        final(output)@[i] == (if length <= old(output)@.len() && i < length {
            memory@.endpoints[(endpoint.info.addr.raw as int % 128 - 1) * 128 + i]
        } else {
            old(output)@[i]
        }),
{
    effects::address_is_number_and_direction(endpoint.info.addr);
}

/// Enabling the bus leaves the controller running as a device, and every other endpoint
/// than zero stalls until the host configures it. The allocation is known to the interrupt
/// handler, what was outstanding is forgotten, and no endpoint is enabled.
pub proof fn bus_enable(
    bus: &mut Bus,
    state: &mut UsbState,
    chip: Chip,
    dma: DmaLayout,
    pins: u16,
    result: Vec<Action>,
    index: int,
)
    requires
        call_ensures(Bus::enable, (bus, state, chip, dma, pins), result),
        dma.reachable(chip),
        1 <= index < 4,
    ensures
        ({
            let actions = result@;
            let model = old(state)@;
            let later = final(state)@;
            &&& effects::leaves(actions, 0x00, 0x29)
            &&& effects::leaves(actions, 0x01, 0x81)
            &&& effects::leaves(actions, 0x02, 0x07)
            &&& effects::leaves(actions, 0x03, 0x00)
            &&& effects::leaves(actions, 0x06, 0xff)
            &&& effects::leaves(actions, 0x22, 0x02)
            &&& effects::leaves(actions, 0x20 + 4 * index, 0x00)
            &&& exists|value: u8| #[trigger]
                effects::leaves(actions, 0x22 + 4 * index, value) && fields::rx_answer(value) == 3
                    && fields::tx_answer(value) == 3
            &&& actions.contains(Action::Pfic(PficAction::Enable { irq: 22 }))
            &&& later.input.allocated == bits::set8(old(bus).allocated_in)
            &&& later.output.allocated == bits::set8(old(bus).allocated_out)
            &&& later.input.enabled == Set::<int>::empty()
            &&& later.output.enabled == Set::<int>::empty()
            &&& later.input.complete == Set::<int>::empty()
            &&& later.output.complete == Set::<int>::empty()
            &&& !later.setup_pending
            &&& later.bus_events == model.bus_events
            &&& later.reset_generation == model.reset_generation
        }),
{
    let allocated_in = bits::set8(old(bus).allocated_in);
    let allocated_out = bits::set8(old(bus).allocated_out);
    effects::enabled_bus_waits_for_host(chip, dma, pins, allocated_in, allocated_out, index);
    effects::enabled_bus_state(old(state)@, allocated_in, allocated_out);
    assert(result@[23] == Action::Pfic(PficAction::Enable { irq: 22 }));
}

/// Disabling the bus keeps its interrupt from being taken before anything else, stops the
/// controller, counts as a reset for every transfer, and wakes every task.
pub proof fn bus_disable(bus: &mut Bus, state: &mut UsbState, result: Vec<Action>, index: int)
    requires
        call_ensures(Bus::disable, (bus, state), result),
        0 <= index < 4,
    ensures
        ({
            let actions = result@;
            let model = old(state)@;
            let later = final(state)@;
            &&& actions[0] == Action::Pfic(PficAction::Disable { irq: 22 })
            &&& effects::leaves(actions, 0x00, 0x00)
            &&& effects::leaves(actions, 0x01, 0x80)
            &&& effects::leaves(actions, 0x02, 0x00)
            &&& effects::wakes(actions, Wake::Control)
            &&& effects::wakes(actions, Wake::In(index as usize))
            &&& effects::wakes(actions, Wake::Out(index as usize))
            &&& later.reset_generation == (model.reset_generation + 1) % 0x1_0000_0000
            &&& later.input.enabled == Set::<int>::empty()
            &&& later.output.enabled == Set::<int>::empty()
            &&& later.input.allocated == model.input.allocated
            &&& later.output.allocated == model.output.allocated
            &&& later.bus_events == model.bus_events
        }),
{
    effects::disabled_bus_is_silent(old(state)@, index);
}

/// The DMA engine reaches every bank exactly if it reaches the start of each: the bank of
/// endpoint zero, and the others at 128 bytes from each other.
pub proof fn reached_banks(dma: DmaLayout, chip: Chip, reached: bool)
    requires
        call_ensures(DmaLayout::is_reachable, (&dma, chip), reached),
    ensures
        reached <==> crate::usb::chip::dma_address(chip, dma.control as int)
            && crate::usb::chip::dma_address(chip, dma.endpoints as int)
            && crate::usb::chip::dma_address(chip, dma.endpoints + 128)
            && crate::usb::chip::dma_address(chip, dma.endpoints + 256),
{
    assert(dma.address(0) == dma.control);
    assert(dma.address(1) == dma.endpoints);
    assert(dma.address(2) == dma.endpoints + 128);
    assert(dma.address(3) == dma.endpoints + 256);
}

/// The guard of a stage that is done releases nothing, whatever happened since.
pub proof fn disarmed_stage_releases_nothing(
    guard: &mut ControlTransferGuard,
    state: &UsbState,
    control: u8,
    result: Option<u8>,
)
    requires
        call_ensures(ControlTransferGuard::disarm, (guard,), ()),
        call_ensures(ControlTransferGuard::release, (&*final(guard), state, control), result),
    ensures
        result is None,
        final(guard).direction == old(guard).direction,
        final(guard).reset_generation == old(guard).reset_generation,
{
}

/// The guard of a transfer that is done releases nothing, whatever happened since.
pub proof fn disarmed_transfer_releases_nothing(
    guard: &mut TransferGuard,
    state: &UsbState,
    control: u8,
    result: Option<u8>,
)
    requires
        call_ensures(TransferGuard::disarm, (guard,), ()),
        call_ensures(TransferGuard::release, (&*final(guard), state, control), result),
        old(guard).wf(),
    ensures
        result is None,
        final(guard).ticket == old(guard).ticket,
        final(guard).completion_generation == old(guard).completion_generation,
{
}

/// A guard that was just made is armed, for its direction and reset generation.
pub proof fn new_guard_is_armed(
    direction: Direction,
    generation: u32,
    guard: ControlTransferGuard,
)
    requires
        call_ensures(ControlTransferGuard::new, (direction, generation), guard),
    ensures
        guard.armed,
        guard.direction == direction,
        guard.reset_generation == generation,
{
}

/// Polling a transfer disarms its guard exactly if the transfer succeeded.
pub proof fn polled_transfer_is_disarmed(
    guard: &mut TransferGuard,
    other: &mut TransferGuard,
    state: &mut UsbState,
    later: &mut UsbState,
    written: Option<Result<(), EndpointError>>,
    read: Option<Result<usize, EndpointError>>,
)
    requires
        call_ensures(TransferGuard::poll_write, (guard, state), written),
        call_ensures(TransferGuard::poll_read, (other, later), read),
        old(guard).wf(),
        old(guard).ticket.direction == Direction::In,
        old(other).wf(),
        old(other).ticket.direction == Direction::Out,
    ensures
        final(guard).ticket == old(guard).ticket,
        final(guard).completion_generation == old(guard).completion_generation,
        final(guard).armed == (old(guard).armed && !(written matches Some(Ok(_)))),
        final(other).ticket == old(other).ticket,
        final(other).completion_generation == old(other).completion_generation,
        final(other).armed == (old(other).armed && !(read matches Some(Ok(_)))),
{
}

/// Polling endpoint zero fails once the transfer is stale, and gives the length of the
/// last packet received once there is a packet in its direction, which it takes.
pub proof fn polled_control_packet(
    pipe: &mut ControlPipe,
    state: &mut UsbState,
    direction: Direction,
    result: Option<Result<usize, EndpointError>>,
)
    requires
        call_ensures(ControlPipe::poll_ep0, (pipe, state, direction), result),
    ensures
        ({
            let model = old(state)@;
            let stale = is_stale(model, old(pipe).reset_generation);
            &&& stale ==> result == Some(Err::<usize, EndpointError>(EndpointError::Disabled))
                && final(state)@ == model && final(pipe).reset_generation
                == model.reset_generation
            &&& !stale ==> result == (if model.side(direction).complete.contains(0) {
                Some(Ok::<usize, EndpointError>(model.out_lengths[0] as usize))
            } else {
                None
            }) && forgets_control_packet(final(state)@, model, direction) && *final(pipe)
                == *old(pipe)
            &&& final(pipe).max_packet_size == old(pipe).max_packet_size
        }),
{
}

/// An address is made of a number and a direction: 128 is added for IN.
pub proof fn address_has_its_parts(index: usize, direction: Direction, address: EndpointAddress)
    requires
        call_ensures(EndpointAddress::from_parts, (index, direction), address),
        index < 128,
    ensures
        address.raw == index + (if direction == Direction::In {
            128int
        } else {
            0
        }),
{
    effects::address_is_number_and_direction(address);
}

/// The packet memory starts with zeros.
pub proof fn first_memory_is_zero(memory: PacketMemory, i: int)
    requires
        call_ensures(PacketMemory::new, (), memory),
        0 <= i < 384,
    ensures
        memory@.wf(),
        memory@.endpoints[i] == 0,
        i < 64 ==> memory@.control[i] == 0,
{
}

/// A new driver has given no endpoint number away.
pub proof fn first_driver_has_every_number<B: Binding<typelevel::USB, InterruptHandler>>(
    irq: B,
    driver: Driver,
    index: int,
)
    requires
        call_ensures(Driver::new::<B>, (irq,), driver),
    ensures
        !bits::set8(driver.allocated_in).contains(index),
        !bits::set8(driver.allocated_out).contains(index),
{
    bits::lemma_empty8();
}

/// The control pipe and an endpoint tell what they were made with.
pub proof fn sizes_are_told(pipe: ControlPipe, size: usize, endpoint: Endpoint, info: &EndpointInfo)
    requires
        call_ensures(ControlPipe::max_packet_size, (&pipe,), size),
        call_ensures(Endpoint::info, (&endpoint,), info),
    ensures
        size == pipe.max_packet_size,
        info.addr == endpoint.info.addr,
        info.ep_type == endpoint.info.ep_type,
        info.max_packet_size == endpoint.info.max_packet_size,
        info.interval_ms == endpoint.info.interval_ms,
{
}

/// Finishing a status stage disarms its guard exactly if it succeeds.
pub proof fn finished_status_is_disarmed(
    pipe: ControlPipe,
    guard: &mut ControlTransferGuard,
    state: &UsbState,
    address: Option<u8>,
    dev_ad: u8,
    result: Option<Vec<Action>>,
)
    requires
        call_ensures(ControlPipe::finish_status, (&pipe, guard, state, address, dev_ad), result),
    ensures
        result is Some <==> !is_stale(state@, old(guard).reset_generation),
        final(guard).armed == (old(guard).armed && result is None),
        final(guard).direction == old(guard).direction,
        final(guard).reset_generation == old(guard).reset_generation,
{
}

/// Finishing a packet of a control read disarms its guard exactly if it succeeds.
pub proof fn finished_data_in_is_disarmed(
    pipe: ControlPipe,
    guard: &mut ControlTransferGuard,
    state: &UsbState,
    last: bool,
    result: Result<Option<Action>, EndpointError>,
)
    requires
        call_ensures(ControlPipe::finish_data_in, (&pipe, guard, state, last), result),
    ensures
        result is Ok <==> !last || !is_stale(state@, old(guard).reset_generation),
        final(guard).armed == (old(guard).armed && result is Err),
        final(guard).direction == old(guard).direction,
        final(guard).reset_generation == old(guard).reset_generation,
{
}

/// Finishing a packet of a control write disarms its guard exactly if it succeeds.
pub proof fn finished_data_out_is_disarmed(
    pipe: ControlPipe,
    guard: &mut ControlTransferGuard,
    state: &UsbState,
    memory: &PacketMemory,
    length: usize,
    output: &mut [u8],
    result: Result<usize, EndpointError>,
)
    requires
        call_ensures(
            ControlPipe::finish_data_out,
            (&pipe, guard, state, memory, length, output),
            result,
        ),
        length <= 64,
    ensures
        result is Ok <==> length <= old(output)@.len() && !is_stale(
            state@,
            old(guard).reset_generation,
        ),
        final(guard).armed == (old(guard).armed && result is Err),
        final(guard).direction == old(guard).direction,
        final(guard).reset_generation == old(guard).reset_generation,
{
}

} // verus!
