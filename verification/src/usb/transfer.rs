//! The course of reads and writes on the non-control endpoints.
//!
//! A transfer goes from stage to stage. Each step runs without being
//! interrupted; between steps anything may happen to the shared state, and the
//! task may drop the transfer.

use vstd::prelude::*;

use crate::usb::address::Direction;
use crate::usb::bank;
use crate::usb::bank::{MemoryModel, PacketMemory};
use crate::usb::endpoint::{Endpoint, ReadStart, TransferGuard, TransferTicket};
use crate::usb::register;
use crate::usb::register::{Action, EP_PACKET_SIZE};
use crate::usb::state::{UsbModel, UsbState};
use crate::usb::types::EndpointError;

verus! {

/// How far a write has come.
#[derive(Clone, Copy, Debug, PartialEq, Eq)]
pub enum WriteStage {
    /// Nothing was done.
    Request,
    /// The packet is in the bank.
    Arm(TransferTicket),
    /// The packet is on offer. A step that stays here waits for the host.
    Wait(TransferGuard),
    /// The transfer failed and its bank is to be taken back.
    Release(TransferGuard, EndpointError),
    /// The write is over.
    Done(Result<(), EndpointError>),
}

/// How far a read has come.
#[derive(Clone, Copy, Debug, PartialEq, Eq)]
pub enum ReadStage {
    /// Nothing was done.
    Request,
    /// The endpoint is enabled.
    Start(TransferTicket),
    /// A packet of this length had been received before.
    Confirm(TransferTicket, usize),
    /// The endpoint is open. A step that stays here waits for the host.
    Wait(TransferGuard),
    /// The transfer failed and its bank is to be taken back.
    Release(TransferGuard, EndpointError),
    /// A packet of this length is in the bank.
    Copy(usize),
    /// The read is over.
    Done(Result<usize, EndpointError>),
}

/// The write of the control register of endpoint `index`, if there is one.
pub open spec fn control_actions(index: int, value: Option<u8>) -> Seq<Action> {
    match value {
        Some(value) => seq![register::write_control(index, value)],
        None => Seq::empty(),
    }
}

/// Appends the write of the control register of endpoint `index`, if there is
/// one.
pub fn push_control(index: usize, value: Option<u8>, actions: &mut Vec<Action>)
    requires
        index < 128,
    ensures
        final(actions)@ == old(actions)@ + control_actions(index as int, value),
{
    if let Some(value) = value {
        actions.push(Action::Write8 { offset: register::endpoint_control(index), value });
    }
    assert(actions@ =~= old(actions)@ + control_actions(index as int, value));
}

impl WriteStage {
    /// The stage belongs to an IN endpoint.
    pub open spec fn wf(self) -> bool {
        match self {
            WriteStage::Arm(ticket) => ticket.wf() && ticket.direction == Direction::In,
            WriteStage::Wait(guard) => guard.wf() && guard.ticket.direction == Direction::In,
            WriteStage::Release(guard, _) => guard.wf() && guard.ticket.direction == Direction::In,
            _ => true,
        }
    }

    /// What dropping the write writes to the endpoint's control register.
    pub open spec fn spec_cancel(self, model: UsbModel, control: u8) -> Option<u8> {
        match self {
            WriteStage::Wait(guard) => guard.spec_release(model, control),
            WriteStage::Release(guard, _) => guard.spec_release(model, control),
            _ => None,
        }
    }

    /// Drops the write: the value to write to the endpoint's control register,
    /// of which `control` is the present value.
    pub fn cancel(&self, state: &UsbState, control: u8) -> (value: Option<u8>)
        requires
            self.wf(),
        ensures
            value == self.spec_cancel(state@, control),
    {
        match self {
            WriteStage::Wait(guard) => guard.release(state, control),
            WriteStage::Release(guard, _) => guard.release(state, control),
            _ => None,
        }
    }
}

impl ReadStage {
    /// The stage belongs to an OUT endpoint.
    pub open spec fn wf(self) -> bool {
        match self {
            ReadStage::Start(ticket) => ticket.wf() && ticket.direction == Direction::Out,
            ReadStage::Confirm(ticket, _) => ticket.wf() && ticket.direction == Direction::Out,
            ReadStage::Wait(guard) => guard.wf() && guard.ticket.direction == Direction::Out,
            ReadStage::Release(guard, _) => guard.wf() && guard.ticket.direction == Direction::Out,
            _ => true,
        }
    }

    /// What dropping the read writes to the endpoint's control register.
    pub open spec fn spec_cancel(self, model: UsbModel, control: u8) -> Option<u8> {
        match self {
            ReadStage::Wait(guard) => guard.spec_release(model, control),
            ReadStage::Release(guard, _) => guard.spec_release(model, control),
            _ => None,
        }
    }

    /// Drops the read: the value to write to the endpoint's control register, of
    /// which `control` is the present value.
    pub fn cancel(&self, state: &UsbState, control: u8) -> (value: Option<u8>)
        requires
            self.wf(),
        ensures
            value == self.spec_cancel(state@, control),
    {
        match self {
            ReadStage::Wait(guard) => guard.release(state, control),
            ReadStage::Release(guard, _) => guard.release(state, control),
            _ => None,
        }
    }
}

impl Endpoint {
    /// The stage after a step of a write of `length` bytes.
    pub open spec fn write_next(self, stage: WriteStage, model: UsbModel, length: int) -> WriteStage {
        match stage {
            WriteStage::Request => if length > self.info.max_packet_size {
                WriteStage::Done(Err(EndpointError::BufferOverflow))
            } else if self.enabled(model, Direction::In) {
                WriteStage::Arm(self.ticket(model, Direction::In))
            } else {
                WriteStage::Done(Err(EndpointError::Disabled))
            },
            WriteStage::Arm(ticket) => if ticket.live(model) {
                WriteStage::Wait(ticket.guard(model))
            } else {
                WriteStage::Done(Err(EndpointError::Disabled))
            },
            WriteStage::Wait(guard) => match guard.outcome(model) {
                Some(Ok(())) => WriteStage::Done(Ok(())),
                Some(Err(error)) => WriteStage::Release(guard, error),
                None => stage,
            },
            WriteStage::Release(_, error) => WriteStage::Done(Err(error)),
            WriteStage::Done(_) => stage,
        }
    }

    /// The shared state after a step of a write.
    pub open spec fn write_model(self, stage: WriteStage, model: UsbModel) -> UsbModel {
        match stage {
            WriteStage::Arm(ticket) => if ticket.live(model) {
                UsbModel { input: model.input.consume(ticket.index as int), ..model }
            } else {
                model
            },
            WriteStage::Wait(guard) => if guard.outcome(model) == Some(Ok::<(), EndpointError>(())) {
                UsbModel { input: model.input.consume(guard.ticket.index as int), ..model }
            } else {
                model
            },
            _ => model,
        }
    }

    /// The packet memory after a step of a write.
    pub open spec fn write_memory(
        self,
        stage: WriteStage,
        model: UsbModel,
        memory: MemoryModel,
        data: Seq<u8>,
    ) -> MemoryModel {
        if stage == WriteStage::Request && self.write_next(stage, model, data.len() as int) is Arm {
            memory.written(self.bank(model, Direction::In), data)
        } else {
            memory
        }
    }

    /// The effects of a step of a write.
    pub open spec fn write_actions(
        self,
        stage: WriteStage,
        model: UsbModel,
        length: int,
        control: u8,
    ) -> Seq<Action> {
        match stage {
            WriteStage::Arm(ticket) => if ticket.live(model) {
                seq![
                    register::write_tx_length(ticket.index as int, length as u8),
                    register::write_control(
                        ticket.index as int,
                        register::with_tx(control, register::UEP_T_RES_ACK),
                    ),
                ]
            } else {
                Seq::empty()
            },
            WriteStage::Release(guard, _) => control_actions(
                guard.ticket.index as int,
                guard.spec_release(model, control),
            ),
            _ => Seq::empty(),
        }
    }

    /// Takes a step of a write of `data`. `control` is the endpoint's control
    /// register.
    pub fn write(
        &self,
        stage: WriteStage,
        state: &mut UsbState,
        memory: &mut PacketMemory,
        data: &[u8],
        control: u8,
    ) -> (result: (WriteStage, Vec<Action>))
        requires
            self.wf(),
            stage.wf(),
            stage is Arm ==> data@.len() <= EP_PACKET_SIZE,
        ensures
            result.0 == self.write_next(stage, old(state)@, data@.len() as int),
            result.0.wf(),
            result.0 is Arm ==> data@.len() <= EP_PACKET_SIZE,
            result.1@ == self.write_actions(stage, old(state)@, data@.len() as int, control),
            final(state)@ == self.write_model(stage, old(state)@),
            final(memory)@ == self.write_memory(stage, old(state)@, old(memory)@, data@),
    {
        match stage {
            WriteStage::Request => match self.begin_write(state, memory, data) {
                Ok(ticket) => (WriteStage::Arm(ticket), Vec::new()),
                Err(error) => (WriteStage::Done(Err(error)), Vec::new()),
            },
            WriteStage::Arm(ticket) => match ticket.arm_write(state, data.len(), control) {
                Ok((guard, actions)) => (WriteStage::Wait(guard), actions),
                Err(error) => (WriteStage::Done(Err(error)), Vec::new()),
            },
            WriteStage::Wait(guard) => {
                let mut guard = guard;
                match guard.poll_write(state) {
                    Some(Ok(())) => (WriteStage::Done(Ok(())), Vec::new()),
                    Some(Err(error)) => (WriteStage::Release(guard, error), Vec::new()),
                    None => (stage, Vec::new()),
                }
            },
            WriteStage::Release(guard, error) => {
                let mut actions: Vec<Action> = Vec::new();
                push_control(guard.ticket.index, guard.release(state, control), &mut actions);
                assert(actions@ =~= self.write_actions(
                    stage,
                    old(state)@,
                    data@.len() as int,
                    control,
                ));
                (WriteStage::Done(Err(error)), actions)
            },
            WriteStage::Done(_) => (stage, Vec::new()),
        }
    }

    /// The stage after a step of a read into a buffer of `capacity` bytes.
    pub open spec fn read_next(
        self,
        stage: ReadStage,
        model: UsbModel,
        capacity: int,
        control: u8,
    ) -> ReadStage {
        match stage {
            ReadStage::Request => if self.enabled(model, Direction::Out) {
                ReadStage::Start(self.ticket(model, Direction::Out))
            } else {
                ReadStage::Done(Err(EndpointError::Disabled))
            },
            ReadStage::Start(ticket) => match ticket.spec_start_read(model, control) {
                ReadStart::Disabled => ReadStage::Done(Err(EndpointError::Disabled)),
                ReadStart::Completed(length) => ReadStage::Confirm(ticket, length),
                ReadStart::Armed(guard, _) => ReadStage::Wait(guard),
            },
            ReadStage::Confirm(ticket, length) => if ticket.live(model) {
                ReadStage::Copy(length)
            } else {
                ReadStage::Done(Err(EndpointError::Disabled))
            },
            ReadStage::Wait(guard) => match guard.outcome(model) {
                Some(Ok(())) => ReadStage::Copy(
                    model.out_lengths[guard.ticket.index as int] as usize,
                ),
                Some(Err(error)) => ReadStage::Release(guard, error),
                None => stage,
            },
            ReadStage::Release(_, error) => ReadStage::Done(Err(error)),
            ReadStage::Copy(length) => if length > capacity {
                ReadStage::Done(Err(EndpointError::BufferOverflow))
            } else {
                ReadStage::Done(Ok(length))
            },
            ReadStage::Done(_) => stage,
        }
    }

    /// The shared state after a step of a read.
    pub open spec fn read_model(self, stage: ReadStage, model: UsbModel) -> UsbModel {
        match stage {
            ReadStage::Start(ticket) => if ticket.live(model) {
                UsbModel { output: model.output.consume(ticket.index as int), ..model }
            } else {
                model
            },
            ReadStage::Wait(guard) => if guard.outcome(model) == Some(Ok::<(), EndpointError>(())) {
                UsbModel { output: model.output.consume(guard.ticket.index as int), ..model }
            } else {
                model
            },
            _ => model,
        }
    }

    /// The caller's buffer after a step of a read.
    pub open spec fn read_output(
        self,
        stage: ReadStage,
        memory: MemoryModel,
        output: Seq<u8>,
    ) -> Seq<u8> {
        match stage {
            ReadStage::Copy(length) => if length <= output.len() {
                bank::overwrite(
                    output,
                    0,
                    memory.bytes(
                        bank::spec_bank(
                            self.info.addr.spec_index(),
                            Direction::Out,
                            Set::empty(),
                        ),
                    ).take(length as int),
                )
            } else {
                output
            },
            _ => output,
        }
    }

    /// The effects of a step of a read.
    pub open spec fn read_actions(
        self,
        stage: ReadStage,
        model: UsbModel,
        control: u8,
    ) -> Seq<Action> {
        match stage {
            ReadStage::Start(ticket) => match ticket.spec_start_read(model, control) {
                ReadStart::Armed(_, action) => seq![action],
                _ => Seq::empty(),
            },
            ReadStage::Release(guard, _) => control_actions(
                guard.ticket.index as int,
                guard.spec_release(model, control),
            ),
            _ => Seq::empty(),
        }
    }

    /// Takes a step of a read into `output`. `control` is the endpoint's control
    /// register.
    pub fn read(
        &self,
        stage: ReadStage,
        state: &mut UsbState,
        memory: &PacketMemory,
        output: &mut [u8],
        control: u8,
    ) -> (result: (ReadStage, Vec<Action>))
        requires
            self.wf(),
            stage.wf(),
            stage matches ReadStage::Copy(length) ==> length <= old(output)@.len() ==> length
                <= EP_PACKET_SIZE,
        ensures
            result.0 == self.read_next(stage, old(state)@, old(output)@.len() as int, control),
            result.0.wf(),
            result.1@ == self.read_actions(stage, old(state)@, control),
            final(state)@ == self.read_model(stage, old(state)@),
            final(output)@ == self.read_output(stage, memory@, old(output)@),
    {
        match stage {
            ReadStage::Request => match self.begin_read(state) {
                Ok(ticket) => (ReadStage::Start(ticket), Vec::new()),
                Err(error) => (ReadStage::Done(Err(error)), Vec::new()),
            },
            ReadStage::Start(ticket) => match ticket.start_read(state, control) {
                ReadStart::Disabled => (
                    ReadStage::Done(Err(EndpointError::Disabled)),
                    Vec::new(),
                ),
                ReadStart::Completed(length) => (ReadStage::Confirm(ticket, length), Vec::new()),
                ReadStart::Armed(guard, action) => {
                    let mut actions: Vec<Action> = Vec::new();
                    actions.push(action);
                    assert(actions@ =~= seq![action]);
                    (ReadStage::Wait(guard), actions)
                },
            },
            ReadStage::Confirm(ticket, length) => match ticket.confirm_read(state, length) {
                Ok(length) => (ReadStage::Copy(length), Vec::new()),
                Err(error) => (ReadStage::Done(Err(error)), Vec::new()),
            },
            ReadStage::Wait(guard) => {
                let mut guard = guard;
                match guard.poll_read(state) {
                    Some(Ok(length)) => (ReadStage::Copy(length), Vec::new()),
                    Some(Err(error)) => (ReadStage::Release(guard, error), Vec::new()),
                    None => (stage, Vec::new()),
                }
            },
            ReadStage::Release(guard, error) => {
                let mut actions: Vec<Action> = Vec::new();
                push_control(guard.ticket.index, guard.release(state, control), &mut actions);
                assert(actions@ =~= self.read_actions(stage, old(state)@, control));
                (ReadStage::Done(Err(error)), actions)
            },
            ReadStage::Copy(length) => {
                (ReadStage::Done(self.finish_read(memory, length, output)), Vec::new())
            },
            ReadStage::Done(_) => (stage, Vec::new()),
        }
    }
}

/// A write that nothing disturbs sends its packet: the packet is in the
/// endpoint's bank when the endpoint is opened, its length is announced, and once
/// the host took it the write is over with success.
pub proof fn write_sends_packet(
    endpoint: Endpoint,
    model: UsbModel,
    memory: MemoryModel,
    data: Seq<u8>,
    control: u8,
)
    requires
        endpoint.wf(),
        endpoint.enabled(model, Direction::In),
        model.wf(),
        memory.wf(),
        data.len() <= endpoint.info.max_packet_size,
    ensures
        ({
            let index = endpoint.info.addr.spec_index();
            let n = data.len() as int;
            let armed = endpoint.write_next(WriteStage::Request, model, n);
            let waiting = endpoint.write_next(armed, model, n);
            let filled = endpoint.write_memory(WriteStage::Request, model, memory, data);
            let offered = endpoint.write_model(armed, model);
            let taken = offered.after_in(index);
            &&& filled.bytes(endpoint.bank(model, Direction::In)).take(n) == data
            &&& endpoint.write_actions(armed, model, n, control) == seq![
                register::write_tx_length(index, n as u8),
                register::write_control(index, register::with_tx(control, register::UEP_T_RES_ACK)),
            ]
            &&& endpoint.write_next(waiting, offered, n) == waiting
            &&& endpoint.write_next(waiting, taken, n) == WriteStage::Done(Ok(()))
        }),
{
    bank::packet_reads_back(memory, endpoint.bank(model, Direction::In), data);
}

/// A read that nothing disturbs gives the packet: when one of `length` bytes had
/// been received before, the read ends with it, and the caller's buffer starts
/// with its bytes.
pub proof fn read_gives_received_packet(
    endpoint: Endpoint,
    model: UsbModel,
    memory: MemoryModel,
    output: Seq<u8>,
    control: u8,
)
    requires
        endpoint.wf(),
        endpoint.enabled(model, Direction::Out),
        model.wf(),
        memory.wf(),
        model.output.complete.contains(endpoint.info.addr.spec_index()),
        model.out_lengths[endpoint.info.addr.spec_index()] <= output.len(),
        model.out_lengths[endpoint.info.addr.spec_index()] <= EP_PACKET_SIZE,
    ensures
        ({
            let capacity = output.len() as int;
            let length = model.out_lengths[endpoint.info.addr.spec_index()] as int;
            let started = endpoint.read_next(ReadStage::Request, model, capacity, control);
            let confirming = endpoint.read_next(started, model, capacity, control);
            let later = endpoint.read_model(started, model);
            let copying = endpoint.read_next(confirming, later, capacity, control);
            &&& endpoint.read_next(copying, later, capacity, control) == ReadStage::Done(
                Ok(length as usize),
            )
            &&& endpoint.read_output(copying, memory, output).take(length) == memory.bytes(
                endpoint.bank(model, Direction::Out),
            ).take(length)
            &&& !later.output.complete.contains(endpoint.info.addr.spec_index())
        }),
{
    let length = model.out_lengths[endpoint.info.addr.spec_index()] as int;
    let output_after = endpoint.read_output(ReadStage::Copy(length as usize), memory, output);
    assert(output_after.take(length) =~= memory.bytes(endpoint.bank(model, Direction::Out)).take(length));
}

/// A read that finds no packet waits for one: the endpoint is opened, the read
/// stays until a packet comes, and then ends with it.
pub proof fn read_waits_for_packet(
    endpoint: Endpoint,
    model: UsbModel,
    capacity: int,
    length: u8,
    control: u8,
)
    requires
        endpoint.wf(),
        endpoint.enabled(model, Direction::Out),
        model.wf(),
        !model.output.complete.contains(endpoint.info.addr.spec_index()),
        length <= capacity,
    ensures
        ({
            let index = endpoint.info.addr.spec_index();
            let started = endpoint.read_next(ReadStage::Request, model, capacity, control);
            let waiting = endpoint.read_next(started, model, capacity, control);
            let opened = endpoint.read_model(started, model);
            let received = opened.after_out(index, length);
            let copying = endpoint.read_next(waiting, received, capacity, control);
            &&& endpoint.read_actions(started, model, control) == seq![
                register::write_control(index, register::with_rx(control, register::UEP_R_RES_ACK)),
            ]
            &&& endpoint.read_next(waiting, opened, capacity, control) == waiting
            &&& endpoint.read_next(copying, received, capacity, control) == ReadStage::Done(
                Ok(length as usize),
            )
        }),
{
}

/// A transfer that is over needs no dropping: only one that waits, or has
/// failed, writes anything when it is dropped.
pub proof fn finished_transfer_is_dropped_silently(
    write: WriteStage,
    read: ReadStage,
    model: UsbModel,
    control: u8,
)
    ensures
        write is Done ==> write.spec_cancel(model, control) is None,
        read is Done ==> read.spec_cancel(model, control) is None,
        write.spec_cancel(model, control) is Some ==> write is Wait || write is Release,
        read.spec_cancel(model, control) is Some ==> read is Wait || read is Release,
{
}

} // verus!
