//! The course of the stages of a control transfer.
//!
//! Each step runs without being interrupted; between steps anything may happen
//! to the shared state, and the task may drop the stage.

use vstd::prelude::*;

use crate::usb::address::Direction;
use crate::usb::bank;
use crate::usb::bank::{Bank, MemoryModel, PacketMemory};
use crate::usb::control;
use crate::usb::control::{ControlPipe, ControlTransferGuard};
use crate::usb::register;
use crate::usb::register::{Action, EP_PACKET_SIZE};
use crate::usb::state::{UsbModel, UsbState};
use crate::usb::transfer;
use crate::usb::types::EndpointError;

verus! {

/// How far a stage of a control transfer has come. `R` is what it ends with.
#[derive(Debug, PartialEq, Eq)]
pub enum ControlStage<R> {
    /// Nothing was done.
    Request,
    /// Endpoint zero is open. A step that stays here waits for the host.
    Wait(ControlTransferGuard),
    /// The packet went over; this many bytes if it was received.
    Finish(ControlTransferGuard, usize),
    /// The stage failed and endpoint zero is to be closed.
    Release(ControlTransferGuard, EndpointError),
    /// The stage is over.
    Done(Result<R, EndpointError>),
}

impl<R> ControlStage<R> {
    /// What dropping the stage writes to the control register of endpoint zero.
    pub open spec fn spec_cancel(self, model: UsbModel, control: u8) -> Option<u8> {
        match self {
            ControlStage::Wait(guard) => guard.spec_release(model, control),
            ControlStage::Finish(guard, _) => guard.spec_release(model, control),
            ControlStage::Release(guard, _) => guard.spec_release(model, control),
            _ => None,
        }
    }

    /// Drops the stage: the value to write to the control register of endpoint
    /// zero, of which `control` is the present value.
    pub fn cancel(&self, state: &UsbState, control: u8) -> (value: Option<u8>)
        ensures
            value == self.spec_cancel(state@, control),
    {
        match self {
            ControlStage::Wait(guard) => guard.release(state, control),
            ControlStage::Finish(guard, _) => guard.release(state, control),
            ControlStage::Release(guard, _) => guard.release(state, control),
            _ => None,
        }
    }
}

impl ControlPipe {
    /// The stage after a step that waits for a packet in `direction`.
    pub open spec fn wait_next<R>(
        self,
        guard: ControlTransferGuard,
        model: UsbModel,
        direction: Direction,
    ) -> ControlStage<R> {
        if !control::current(model, self.reset_generation) {
            ControlStage::Release(guard, EndpointError::Disabled)
        } else if model.side(direction).complete.contains(0) {
            ControlStage::Finish(guard, model.out_lengths[0] as usize)
        } else {
            ControlStage::Wait(guard)
        }
    }

    /// The shared state after a step that waits for a packet in `direction`.
    pub open spec fn wait_model(self, model: UsbModel, direction: Direction) -> UsbModel {
        if control::current(model, self.reset_generation) {
            model.consume_control(direction)
        } else {
            model
        }
    }

    /// The pipe after a step that waits for a packet.
    pub open spec fn wait_pipe(self, model: UsbModel) -> ControlPipe {
        ControlPipe { reset_generation: model.reset_generation, ..self }
    }

    fn wait_ep0<R>(
        &mut self,
        guard: ControlTransferGuard,
        state: &mut UsbState,
        direction: Direction,
    ) -> (stage: ControlStage<R>)
        ensures
            stage == old(self).wait_next::<R>(guard, old(state)@, direction),
            final(state)@ == old(self).wait_model(old(state)@, direction),
            *final(self) == old(self).wait_pipe(old(state)@),
    {
        match self.poll_ep0(state, direction) {
            Some(Ok(length)) => ControlStage::Finish(guard, length),
            Some(Err(error)) => ControlStage::Release(guard, error),
            None => ControlStage::Wait(guard),
        }
    }

    /// The stage after a step of receiving a data packet into a buffer of
    /// `capacity` bytes.
    pub open spec fn data_out_next(
        self,
        stage: ControlStage<usize>,
        model: UsbModel,
        capacity: int,
    ) -> ControlStage<usize> {
        match stage {
            ControlStage::Request => if control::current(model, self.reset_generation) {
                ControlStage::Wait(self.guard(Direction::Out))
            } else {
                ControlStage::Done(Err(EndpointError::Disabled))
            },
            ControlStage::Wait(guard) => self.wait_next(guard, model, Direction::Out),
            ControlStage::Finish(guard, length) => if length > capacity {
                ControlStage::Release(guard, EndpointError::BufferOverflow)
            } else if control::current(model, guard.reset_generation) {
                ControlStage::Done(Ok(length))
            } else {
                ControlStage::Release(guard, EndpointError::Disabled)
            },
            ControlStage::Release(_, error) => ControlStage::Done(Err(error)),
            ControlStage::Done(_) => stage,
        }
    }

    /// The effects of a step of receiving a data packet.
    pub open spec fn data_out_actions(
        self,
        stage: ControlStage<usize>,
        model: UsbModel,
        control: u8,
    ) -> Seq<Action> {
        match stage {
            ControlStage::Request => if control::current(model, self.reset_generation) {
                seq![
                    register::write_control(0, register::with_rx(control, register::UEP_R_RES_ACK)),
                ]
            } else {
                Seq::empty()
            },
            ControlStage::Release(guard, _) => transfer::control_actions(
                0,
                guard.spec_release(model, control),
            ),
            _ => Seq::empty(),
        }
    }

    /// Takes a step of receiving a data packet of a control write into `output`.
    /// `control` is the control register of endpoint zero.
    pub fn data_out(
        &mut self,
        stage: ControlStage<usize>,
        state: &mut UsbState,
        memory: &PacketMemory,
        output: &mut [u8],
        control: u8,
    ) -> (result: (ControlStage<usize>, Vec<Action>))
        requires
            stage matches ControlStage::Finish(guard, length) ==> length <= old(output)@.len()
                && control::current(old(state)@, guard.reset_generation) ==> length
                <= EP_PACKET_SIZE,
        ensures
            result.0 == old(self).data_out_next(stage, old(state)@, old(output)@.len() as int),
            result.1@ == old(self).data_out_actions(stage, old(state)@, control),
            stage is Wait ==> {
                &&& final(state)@ == old(self).wait_model(old(state)@, Direction::Out)
                &&& *final(self) == old(self).wait_pipe(old(state)@)
            },
            !(stage is Wait) ==> final(state)@ == old(state)@ && *final(self) == *old(self),
            final(output)@ == (if result.0 is Done && stage is Finish {
                bank::overwrite(old(output)@, 0, memory@.control.take(stage->Finish_1 as int))
            } else {
                old(output)@
            }),
    {
        match stage {
            ControlStage::Request => match self.begin_data_out(state, control) {
                Ok((guard, action)) => {
                    let mut actions: Vec<Action> = Vec::new();
                    actions.push(action);
                    assert(actions@ =~= seq![action]);
                    (ControlStage::Wait(guard), actions)
                },
                Err(error) => (ControlStage::Done(Err(error)), Vec::new()),
            },
            ControlStage::Wait(guard) => {
                (self.wait_ep0(guard, state, Direction::Out), Vec::new())
            },
            ControlStage::Finish(guard, length) => {
                let mut guard = guard;
                match self.finish_data_out(&mut guard, state, memory, length, output) {
                    Ok(length) => (ControlStage::Done(Ok(length)), Vec::new()),
                    Err(error) => (ControlStage::Release(guard, error), Vec::new()),
                }
            },
            ControlStage::Release(guard, error) => {
                let mut actions: Vec<Action> = Vec::new();
                transfer::push_control(0, guard.release(state, control), &mut actions);
                assert(actions@ =~= self.data_out_actions(stage, old(state)@, control));
                (ControlStage::Done(Err(error)), actions)
            },
            ControlStage::Done(_) => (stage, Vec::new()),
        }
    }

    /// The stage after a step of sending a data packet of `length` bytes.
    pub open spec fn data_in_next(
        self,
        stage: ControlStage<()>,
        model: UsbModel,
        length: int,
        last: bool,
    ) -> ControlStage<()> {
        match stage {
            ControlStage::Request => if length > self.max_packet_size {
                ControlStage::Done(Err(EndpointError::BufferOverflow))
            } else if control::current(model, self.reset_generation) {
                ControlStage::Wait(self.guard(Direction::In))
            } else {
                ControlStage::Done(Err(EndpointError::Disabled))
            },
            ControlStage::Wait(guard) => self.wait_next(guard, model, Direction::In),
            ControlStage::Finish(guard, _) => if last && !control::current(
                model,
                guard.reset_generation,
            ) {
                ControlStage::Release(guard, EndpointError::Disabled)
            } else {
                ControlStage::Done(Ok(()))
            },
            ControlStage::Release(_, error) => ControlStage::Done(Err(error)),
            ControlStage::Done(_) => stage,
        }
    }

    /// The effects of a step of sending a data packet of `length` bytes.
    pub open spec fn data_in_actions(
        self,
        stage: ControlStage<()>,
        model: UsbModel,
        length: int,
        last: bool,
        control: u8,
    ) -> Seq<Action> {
        match stage {
            ControlStage::Request => if length <= self.max_packet_size && control::current(
                model,
                self.reset_generation,
            ) {
                control::prepare_actions(
                    length,
                    if last {
                        register::UEP_R_RES_ACK
                    } else {
                        register::UEP_R_RES_NAK
                    },
                    control,
                )
            } else {
                Seq::empty()
            },
            ControlStage::Finish(guard, _) => if last && control::current(
                model,
                guard.reset_generation,
            ) {
                seq![register::write_control(0, control::status_out_control())]
            } else {
                Seq::empty()
            },
            ControlStage::Release(guard, _) => transfer::control_actions(
                0,
                guard.spec_release(model, control),
            ),
            _ => Seq::empty(),
        }
    }

    /// Takes a step of sending a data packet of a control read. With the last
    /// packet the host's status packet is accepted too. `control` is the control
    /// register of endpoint zero.
    pub fn data_in(
        &mut self,
        stage: ControlStage<()>,
        state: &mut UsbState,
        memory: &mut PacketMemory,
        data: &[u8],
        last: bool,
        control: u8,
    ) -> (result: (ControlStage<()>, Vec<Action>))
        requires
            old(self).wf(),
        ensures
            result.0 == old(self).data_in_next(stage, old(state)@, data@.len() as int, last),
            result.1@ == old(self).data_in_actions(
                stage,
                old(state)@,
                data@.len() as int,
                last,
                control,
            ),
            final(state)@ == (match stage {
                ControlStage::Request => if result.0 is Wait {
                    old(state)@.consume_control(Direction::In)
                } else {
                    old(state)@
                },
                ControlStage::Wait(_) => old(self).wait_model(old(state)@, Direction::In),
                _ => old(state)@,
            }),
            *final(self) == (if stage is Wait {
                old(self).wait_pipe(old(state)@)
            } else {
                *old(self)
            }),
            final(memory)@ == (if stage is Request && result.0 is Wait {
                old(memory)@.written(Bank::Control, data@)
            } else {
                old(memory)@
            }),
    {
        match stage {
            ControlStage::Request => match self.begin_data_in(state, memory, data, last, control) {
                Ok((guard, actions)) => (ControlStage::Wait(guard), actions),
                Err(error) => (ControlStage::Done(Err(error)), Vec::new()),
            },
            ControlStage::Wait(guard) => {
                (self.wait_ep0(guard, state, Direction::In), Vec::new())
            },
            ControlStage::Finish(guard, _) => {
                let mut guard = guard;
                match self.finish_data_in(&mut guard, state, last) {
                    Ok(Some(action)) => {
                        let mut actions: Vec<Action> = Vec::new();
                        actions.push(action);
                        assert(actions@ =~= seq![action]);
                        (ControlStage::Done(Ok(())), actions)
                    },
                    Ok(None) => (ControlStage::Done(Ok(())), Vec::new()),
                    Err(error) => (ControlStage::Release(guard, error), Vec::new()),
                }
            },
            ControlStage::Release(guard, error) => {
                let mut actions: Vec<Action> = Vec::new();
                transfer::push_control(0, guard.release(state, control), &mut actions);
                assert(actions@ =~= self.data_in_actions(
                    stage,
                    old(state)@,
                    data@.len() as int,
                    last,
                    control,
                ));
                (ControlStage::Done(Err(error)), actions)
            },
            ControlStage::Done(_) => (stage, Vec::new()),
        }
    }

    /// The stage after a step of a status stage.
    pub open spec fn status_next(self, stage: ControlStage<()>, model: UsbModel) -> ControlStage<
        (),
    > {
        match stage {
            ControlStage::Request => if control::current(model, self.reset_generation) {
                ControlStage::Wait(self.guard(Direction::In))
            } else {
                ControlStage::Done(Err(EndpointError::Disabled))
            },
            ControlStage::Wait(guard) => self.wait_next(guard, model, Direction::In),
            ControlStage::Finish(guard, _) => if control::current(model, guard.reset_generation) {
                ControlStage::Done(Ok(()))
            } else {
                ControlStage::Release(guard, EndpointError::Disabled)
            },
            ControlStage::Release(_, error) => ControlStage::Done(Err(error)),
            ControlStage::Done(_) => stage,
        }
    }

    /// The effects of a step of a status stage that assigns `address`, if the
    /// request does.
    pub open spec fn status_step_actions(
        self,
        stage: ControlStage<()>,
        model: UsbModel,
        address: Option<u8>,
        control: u8,
        dev_ad: u8,
    ) -> Seq<Action> {
        match stage {
            ControlStage::Request => if control::current(model, self.reset_generation) {
                control::prepare_actions(0, register::UEP_R_RES_ACK, control)
            } else {
                Seq::empty()
            },
            ControlStage::Finish(guard, _) => if control::current(model, guard.reset_generation) {
                control::status_actions(address, dev_ad)
            } else {
                Seq::empty()
            },
            ControlStage::Release(guard, _) => transfer::control_actions(
                0,
                guard.spec_release(model, control),
            ),
            _ => Seq::empty(),
        }
    }

    /// Takes a step of the status stage of a control write: the request is
    /// accepted, and the address, if it assigned one, is installed once the host
    /// took the status packet. The stage ends with an error when a reset or a
    /// newer SETUP packet came first; nobody is told then, since the request is
    /// gone. `control` is the control register of endpoint zero and `dev_ad` the
    /// device address register.
    pub fn status_in(
        &mut self,
        stage: ControlStage<()>,
        state: &mut UsbState,
        memory: &mut PacketMemory,
        address: Option<u8>,
        control: u8,
        dev_ad: u8,
    ) -> (result: (ControlStage<()>, Vec<Action>))
        ensures
            result.0 == old(self).status_next(stage, old(state)@),
            result.1@ == old(self).status_step_actions(
                stage,
                old(state)@,
                address,
                control,
                dev_ad,
            ),
            final(state)@ == (match stage {
                ControlStage::Request => if result.0 is Wait {
                    old(state)@.consume_control(Direction::In)
                } else {
                    old(state)@
                },
                ControlStage::Wait(_) => old(self).wait_model(old(state)@, Direction::In),
                _ => old(state)@,
            }),
            *final(self) == (if stage is Wait {
                old(self).wait_pipe(old(state)@)
            } else {
                *old(self)
            }),
            final(memory)@ == old(memory)@,
    {
        match stage {
            ControlStage::Request => match self.begin_status(state, memory, control) {
                Some((guard, actions)) => (ControlStage::Wait(guard), actions),
                None => (ControlStage::Done(Err(EndpointError::Disabled)), Vec::new()),
            },
            ControlStage::Wait(guard) => {
                (self.wait_ep0(guard, state, Direction::In), Vec::new())
            },
            ControlStage::Finish(guard, _) => {
                let mut guard = guard;
                match self.finish_status(&mut guard, state, address, dev_ad) {
                    Some(actions) => (ControlStage::Done(Ok(())), actions),
                    None => (ControlStage::Release(guard, EndpointError::Disabled), Vec::new()),
                }
            },
            ControlStage::Release(guard, error) => {
                let mut actions: Vec<Action> = Vec::new();
                transfer::push_control(0, guard.release(state, control), &mut actions);
                assert(actions@ =~= self.status_step_actions(
                    stage,
                    old(state)@,
                    address,
                    control,
                    dev_ad,
                ));
                (ControlStage::Done(Err(error)), actions)
            },
            ControlStage::Done(_) => (stage, Vec::new()),
        }
    }
}

/// While a SETUP packet waits, every stage of the transfer before it ends at
/// once: a request is refused, and a stage that waits fails and is closed without
/// touching endpoint zero, which belongs to the new transfer.
pub proof fn setup_ends_stages(
    pipe: ControlPipe,
    model: UsbModel,
    guard: ControlTransferGuard,
    length: int,
    last: bool,
    control: u8,
)
    requires
        model.setup_pending,
        length <= pipe.max_packet_size,
    ensures
        ({
            &&& pipe.data_out_next(ControlStage::Request, model, length) == ControlStage::Done(
                Err::<usize, _>(EndpointError::Disabled),
            )
            &&& pipe.data_in_next(ControlStage::Request, model, length, last)
                == ControlStage::Done(Err::<(), _>(EndpointError::Disabled))
            &&& pipe.status_next(ControlStage::Request, model) == ControlStage::Done(
                Err::<(), _>(EndpointError::Disabled),
            )
            &&& pipe.data_out_next(ControlStage::Wait(guard), model, length)
                == ControlStage::<usize>::Release(guard, EndpointError::Disabled)
            &&& pipe.data_in_next(ControlStage::Wait(guard), model, length, last)
                == ControlStage::<()>::Release(guard, EndpointError::Disabled)
            &&& pipe.status_next(ControlStage::Wait(guard), model) == ControlStage::<()>::Release(
                guard,
                EndpointError::Disabled,
            )
            &&& pipe.data_out_actions(
                ControlStage::Release(guard, EndpointError::Disabled),
                model,
                control,
            ) == Seq::<Action>::empty()
            &&& pipe.data_in_actions(
                ControlStage::Release(guard, EndpointError::Disabled),
                model,
                length,
                last,
                control,
            ) == Seq::<Action>::empty()
        }),
{
}

/// A device address is installed only after the host took the status packet of
/// the request that assigned it, and at no other step.
pub proof fn address_follows_status_packet(
    pipe: ControlPipe,
    stage: ControlStage<()>,
    model: UsbModel,
    address: Option<u8>,
    control: u8,
    dev_ad: u8,
    k: int,
)
    requires
        0 <= k < pipe.status_step_actions(stage, model, address, control, dev_ad).len(),
        pipe.status_step_actions(stage, model, address, control, dev_ad)[k] matches Action::Write8 {
            offset,
            ..
        } && offset == register::DEV_AD,
    ensures
        stage is Finish,
        address matches Some(assigned) && pipe.status_step_actions(
            stage,
            model,
            address,
            control,
            dev_ad,
        )[k] == (Action::Write8 {
            offset: register::DEV_AD,
            value: control::address_byte(dev_ad, assigned),
        }),
{
}

/// A control write that nothing disturbs gives its data packet: the caller's
/// buffer starts with the bytes that the host sent.
pub proof fn data_out_gives_packet(
    pipe: ControlPipe,
    model: UsbModel,
    memory: MemoryModel,
    output: Seq<u8>,
    length: u8,
)
    requires
        control::current(model, pipe.reset_generation),
        model.wf(),
        memory.wf(),
        length <= output.len(),
        length <= EP_PACKET_SIZE,
    ensures
        ({
            let capacity = output.len() as int;
            let waiting = pipe.data_out_next(ControlStage::Request, model, capacity);
            let received = model.after_out(0, length);
            let finishing = pipe.data_out_next(waiting, received, capacity);
            let later = pipe.wait_model(received, Direction::Out);
            &&& pipe.data_out_next(finishing, later, capacity) == ControlStage::Done(
                Ok::<usize, EndpointError>(length as usize),
            )
            &&& bank::overwrite(output, 0, memory.control.take(length as int)).take(length as int)
                == memory.control.take(length as int)
        }),
{
    assert(bank::overwrite(output, 0, memory.control.take(length as int)).take(length as int)
        =~= memory.control.take(length as int));
}

} // verus!
