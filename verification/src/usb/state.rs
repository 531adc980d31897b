//! The state that the interrupt handler shares with the endpoint tasks.

use vstd::prelude::*;

use crate::bits;
use crate::usb::address::{Direction, ENDPOINT_COUNT};
use crate::usb::register;
use crate::usb::register::{Action, Wake};

verus! {

/// State of the four endpoint numbers in one direction.
pub struct DirectionState {
    /// Endpoint numbers that were allocated before the bus was started.
    pub allocated: u8,
    /// Endpoint numbers that the host has configured.
    pub enabled: u8,
    /// Endpoint numbers with a packet that no task has consumed yet.
    pub complete: u8,
    /// Counts the completed packets of each endpoint number, modulo 256. Only
    /// one transfer is outstanding per endpoint, so a change since the transfer
    /// was armed says that it completed. Endpoint zero uses `complete` instead.
    pub completions: [u8; ENDPOINT_COUNT],
    /// Counts how often each endpoint number was enabled or disabled. An
    /// endpoint that was disabled and enabled again before its task ran is told
    /// from one that stayed enabled by this count alone.
    pub enables: [u32; ENDPOINT_COUNT],
}

/// What a `DirectionState` holds, with its masks as sets of endpoint numbers.
#[verifier::ext_equal]
pub struct DirectionModel {
    pub allocated: Set<int>,
    pub enabled: Set<int>,
    pub complete: Set<int>,
    pub completions: Seq<u8>,
    pub enables: Seq<u32>,
}

impl View for DirectionState {
    type V = DirectionModel;

    open spec fn view(&self) -> DirectionModel {
        DirectionModel {
            allocated: bits::set8(self.allocated),
            enabled: bits::set8(self.enabled),
            complete: bits::set8(self.complete),
            completions: self.completions@,
            enables: self.enables@,
        }
    }
}

/// State shared by the interrupt handler, the bus, the control pipe and the
/// endpoints. Each method is one step that runs without being interrupted.
pub struct UsbState {
    pub input: DirectionState,
    pub output: DirectionState,
    /// Length of the last packet received on each endpoint number.
    pub out_lengths: [u8; ENDPOINT_COUNT],
    /// Bus events that the bus task has not taken yet, by event number.
    pub bus_events: u8,
    /// Whether a SETUP packet waits for the control task.
    pub setup_pending: bool,
    /// The last SETUP packet.
    pub setup_packet: [u8; 8],
    /// Counts the bus resets and the times that the bus was disabled.
    pub reset_generation: u32,
}

/// What a `UsbState` holds.
#[verifier::ext_equal]
pub struct UsbModel {
    pub input: DirectionModel,
    pub output: DirectionModel,
    pub out_lengths: Seq<u8>,
    pub bus_events: Set<int>,
    pub setup_pending: bool,
    pub setup_packet: Seq<u8>,
    pub reset_generation: u32,
}

impl View for UsbState {
    type V = UsbModel;

    open spec fn view(&self) -> UsbModel {
        UsbModel {
            input: self.input@,
            output: self.output@,
            out_lengths: self.out_lengths@,
            bus_events: bits::set8(self.bus_events),
            setup_pending: self.setup_pending,
            setup_packet: self.setup_packet@,
            reset_generation: self.reset_generation,
        }
    }
}

/// The successor of a 32-bit generation.
pub open spec fn next32(generation: u32) -> u32 {
    if generation == u32::MAX {
        0
    } else {
        (generation + 1) as u32
    }
}

/// The successor of an 8-bit generation.
pub open spec fn next8(generation: u8) -> u8 {
    if generation == u8::MAX {
        0
    } else {
        (generation + 1) as u8
    }
}

impl DirectionModel {
    /// The model without the pending packet of endpoint `index`.
    pub open spec fn consume(self, index: int) -> DirectionModel {
        DirectionModel { complete: self.complete.remove(index), ..self }
    }

    /// The model after a packet of endpoint `index` was acknowledged.
    pub open spec fn completed(self, index: int) -> DirectionModel {
        DirectionModel {
            complete: self.complete.insert(index),
            completions: if index == 0 {
                self.completions
            } else {
                self.completions.update(index, next8(self.completions[index]))
            },
            ..self
        }
    }

    /// The model with endpoint numbers `enabled` enabled and no packet pending.
    pub open spec fn reset(self, enabled: Set<int>) -> DirectionModel {
        DirectionModel { enabled, complete: Set::empty(), ..self }
    }

    /// The model after endpoint `index` was enabled or disabled. Disabling
    /// drops a packet that was received before.
    pub open spec fn set_enabled(self, index: int, enabled: bool) -> DirectionModel {
        DirectionModel {
            enabled: if enabled {
                self.enabled.insert(index)
            } else {
                self.enabled.remove(index)
            },
            complete: if enabled {
                self.complete
            } else {
                self.complete.remove(index)
            },
            enables: self.enables.update(index, next32(self.enables[index])),
            ..self
        }
    }
}

impl DirectionState {
    /// Nothing allocated, enabled or received.
    pub fn new() -> (state: DirectionState)
        ensures
            state@ == (DirectionModel {
                allocated: Set::empty(),
                enabled: Set::empty(),
                complete: Set::empty(),
                completions: seq![0u8, 0u8, 0u8, 0u8],
                enables: seq![0u32, 0u32, 0u32, 0u32],
            }),
    {
        proof {
            bits::lemma_empty8();
        }
        let state = DirectionState {
            allocated: 0,
            enabled: 0,
            complete: 0,
            completions: [0, 0, 0, 0],
            enables: [0, 0, 0, 0],
        };
        assert(state.completions@ =~= seq![0u8, 0u8, 0u8, 0u8]);
        assert(state.enables@ =~= seq![0u32, 0u32, 0u32, 0u32]);
        state
    }

    /// Drops the pending packet of endpoint `index`; tells whether there was one.
    pub fn consume(&mut self, index: usize) -> (pending: bool)
        requires
            index < ENDPOINT_COUNT,
        ensures
            pending == old(self)@.complete.contains(index as int),
            final(self)@ == old(self)@.consume(index as int),
    {
        let pending = bits::has8(self.complete, index);
        self.complete = bits::remove8(self.complete, index);
        pending
    }

    /// Records an acknowledged packet of endpoint `index`.
    pub fn completed(&mut self, index: usize)
        requires
            index < ENDPOINT_COUNT,
        ensures
            final(self)@ == old(self)@.completed(index as int),
    {
        self.complete = bits::insert8(self.complete, index);
        if index != 0 {
            self.completions[index] = self.completions[index].wrapping_add(1);
        }
        assert(self@.completions =~= old(self)@.completed(index as int).completions);
    }

    /// Enables the endpoint numbers of `enabled` and drops every pending packet.
    pub fn reset(&mut self, enabled: u8)
        ensures
            final(self)@ == old(self)@.reset(bits::set8(enabled)),
    {
        proof {
            bits::lemma_empty8();
        }
        self.enabled = enabled;
        self.complete = 0;
    }

    /// Enables or disables endpoint `index`.
    pub fn set_enabled(&mut self, index: usize, enabled: bool)
        requires
            index < ENDPOINT_COUNT,
        ensures
            final(self)@ == old(self)@.set_enabled(index as int, enabled),
    {
        self.enables[index] = self.enables[index].wrapping_add(1);
        if enabled {
            self.enabled = bits::insert8(self.enabled, index);
        } else {
            self.enabled = bits::remove8(self.enabled, index);
            self.complete = bits::remove8(self.complete, index);
        }
        assert(self@.enables =~= old(self)@.set_enabled(index as int, enabled).enables);
    }
}

impl UsbModel {
    /// The model of one direction.
    pub open spec fn side(self, direction: Direction) -> DirectionModel {
        match direction {
            Direction::In => self.input,
            Direction::Out => self.output,
        }
    }

    /// The model with one direction replaced.
    pub open spec fn with_side(self, direction: Direction, side: DirectionModel) -> UsbModel {
        match direction {
            Direction::In => UsbModel { input: side, ..self },
            Direction::Out => UsbModel { output: side, ..self },
        }
    }

    /// The state before the first bus event.
    pub open spec fn initial() -> UsbModel {
        let side = DirectionModel {
            allocated: Set::empty(),
            enabled: Set::empty(),
            complete: Set::empty(),
            completions: seq![0u8, 0u8, 0u8, 0u8],
            enables: seq![0u32, 0u32, 0u32, 0u32],
        };
        UsbModel {
            input: side,
            output: side,
            out_lengths: seq![0u8, 0u8, 0u8, 0u8],
            bus_events: Set::empty(),
            setup_pending: false,
            setup_packet: seq![0u8, 0u8, 0u8, 0u8, 0u8, 0u8, 0u8, 0u8],
            reset_generation: 0,
        }
    }

    /// The model with fresh endpoint state: `enabled_in` and `enabled_out`
    /// enabled, no packet and no SETUP pending.
    pub open spec fn reset_endpoints(
        self,
        enabled_in: Set<int>,
        enabled_out: Set<int>,
    ) -> UsbModel {
        UsbModel {
            input: self.input.reset(enabled_in),
            output: self.output.reset(enabled_out),
            setup_pending: false,
            ..self
        }
    }
}

/// The control byte of a non-control endpoint after a reset: automatic toggle at
/// DATA0; an enabled OUT accepts, an enabled IN defers, and the rest stalls.
pub open spec fn reset_control(enabled_in: bool, enabled_out: bool) -> u8 {
    match (enabled_in, enabled_out) {
        (true, true) => 0x12,
        (false, true) => 0x13,
        (true, false) => 0x1e,
        (false, false) => 0x1f,
    }
}

/// The register writes that reset endpoints 1 up to, but not including, `end`.
pub open spec fn reset_endpoint_actions(
    enabled_in: Set<int>,
    enabled_out: Set<int>,
    end: int,
) -> Seq<Action>
    decreases end,
{
    if end <= 1 {
        Seq::empty()
    } else {
        reset_endpoint_actions(enabled_in, enabled_out, end - 1) + seq![
            register::write_control(
                end - 1,
                reset_control(enabled_in.contains(end - 1), enabled_out.contains(end - 1)),
            ),
            register::write_tx_length(end - 1, 0),
        ]
    }
}

/// The register writes of an endpoint reset: the device address becomes zero,
/// endpoint zero receives and defers IN, and every other endpoint starts over.
pub open spec fn reset_actions(enabled_in: Set<int>, enabled_out: Set<int>) -> Seq<Action> {
    seq![
        Action::Write8 { offset: register::DEV_AD, value: 0 },
        register::write_control(0, 0x02),
    ] + reset_endpoint_actions(enabled_in, enabled_out, ENDPOINT_COUNT as int)
}

/// The wake-ups of every endpoint task.
pub open spec fn wake_all_actions() -> Seq<Action> {
    seq![
        Action::Wake(Wake::Control),
        Action::Wake(Wake::In(0)),
        Action::Wake(Wake::In(1)),
        Action::Wake(Wake::In(2)),
        Action::Wake(Wake::In(3)),
        Action::Wake(Wake::Out(0)),
        Action::Wake(Wake::Out(1)),
        Action::Wake(Wake::Out(2)),
        Action::Wake(Wake::Out(3)),
    ]
}

/// Appends the wake-ups of every endpoint task.
pub fn wake_all_endpoints(actions: &mut Vec<Action>)
    ensures
        final(actions)@ == old(actions)@ + wake_all_actions(),
{
    actions.push(Action::Wake(Wake::Control));
    actions.push(Action::Wake(Wake::In(0)));
    actions.push(Action::Wake(Wake::In(1)));
    actions.push(Action::Wake(Wake::In(2)));
    actions.push(Action::Wake(Wake::In(3)));
    actions.push(Action::Wake(Wake::Out(0)));
    actions.push(Action::Wake(Wake::Out(1)));
    actions.push(Action::Wake(Wake::Out(2)));
    actions.push(Action::Wake(Wake::Out(3)));
    assert(actions@ =~= old(actions)@ + wake_all_actions());
}

impl UsbState {
    /// The state before the bus is started.
    pub fn new() -> (state: UsbState)
        ensures
            state@ == UsbModel::initial(),
    {
        proof {
            bits::lemma_empty8();
        }
        let state = UsbState {
            input: DirectionState::new(),
            output: DirectionState::new(),
            out_lengths: [0, 0, 0, 0],
            bus_events: 0,
            setup_pending: false,
            setup_packet: [0, 0, 0, 0, 0, 0, 0, 0],
            reset_generation: 0,
        };
        assert(state@.out_lengths =~= UsbModel::initial().out_lengths);
        assert(state@.setup_packet =~= UsbModel::initial().setup_packet);
        state
    }

    /// Starts every endpoint over and appends the register writes for it. With
    /// `enabled` the allocated endpoints come up enabled, otherwise none does.
    pub fn reset_endpoint_state(
        &mut self,
        allocated_in: u8,
        allocated_out: u8,
        enabled: bool,
        actions: &mut Vec<Action>,
    )
        ensures
            ({
                let enabled_in = if enabled {
                    bits::set8(allocated_in)
                } else {
                    Set::empty()
                };
                let enabled_out = if enabled {
                    bits::set8(allocated_out)
                } else {
                    Set::empty()
                };
                &&& final(self)@ == old(self)@.reset_endpoints(enabled_in, enabled_out)
                &&& final(actions)@ == old(actions)@ + reset_actions(enabled_in, enabled_out)
            }),
    {
        proof {
            bits::lemma_empty8();
            register::lemma_constants();
        }
        let enabled_in: u8 = if enabled {
            allocated_in
        } else {
            0
        };
        let enabled_out: u8 = if enabled {
            allocated_out
        } else {
            0
        };
        let ghost set_in = bits::set8(enabled_in);
        let ghost set_out = bits::set8(enabled_out);
        let ghost before = actions@;
        actions.push(Action::Write8 { offset: register::DEV_AD, value: 0 });
        self.input.reset(enabled_in);
        self.output.reset(enabled_out);
        self.setup_pending = false;
        actions.push(
            Action::Write8 {
                offset: register::endpoint_control(0),
                value: register::UEP_R_RES_ACK | register::UEP_T_RES_NAK,
            },
        );
        let ghost head = seq![
            Action::Write8 { offset: register::DEV_AD, value: 0 },
            register::write_control(0, 0x02),
        ];
        assert(actions@ =~= before + (head + reset_endpoint_actions(set_in, set_out, 1)));
        let mut index: usize = 1;
        while index < ENDPOINT_COUNT
            invariant
                1 <= index <= ENDPOINT_COUNT,
                set_in == bits::set8(enabled_in),
                set_out == bits::set8(enabled_out),
                actions@ == before + (head + reset_endpoint_actions(
                    set_in,
                    set_out,
                    index as int,
                )),
            decreases ENDPOINT_COUNT - index,
        {
            let rx: u8 = if bits::has8(enabled_out, index) {
                register::UEP_R_RES_ACK
            } else {
                register::UEP_R_RES_STALL
            };
            let tx: u8 = if bits::has8(enabled_in, index) {
                register::UEP_T_RES_NAK
            } else {
                register::UEP_T_RES_STALL
            };
            proof {
                register::lemma_constants();
            }
            actions.push(
                Action::Write8 {
                    offset: register::endpoint_control(index),
                    value: register::UEP_AUTO_TOG | rx | tx,
                },
            );
            actions.push(Action::Write8 { offset: register::endpoint_tx_length(index), value: 0 });
            index = index + 1;
            assert(actions@ =~= before + (head + reset_endpoint_actions(
                set_in,
                set_out,
                index as int,
            )));
        }
    }
}

} // verus!
