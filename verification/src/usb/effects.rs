//! What the actions of the driver leave behind: in the registers of the
//! controller, and in the tasks that they wake.

use vstd::prelude::*;

use crate::bits;
use crate::chip::Chip;
use crate::pfic::PficAction;
use crate::usb::address::{Direction, EndpointAddress};
use crate::usb::bank;
use crate::usb::bank::Bank;
use crate::usb::bank::{MemoryModel, PacketMemory};
use crate::usb::bus;
use crate::usb::bus::{Bus, DmaLayout};
use crate::usb::chip;
use crate::usb::control::ControlPipe;
use crate::usb::control::ControlTransferGuard;
use crate::usb::driver;
use crate::usb::driver::Driver;
use crate::usb::endpoint::{Endpoint, TransferGuard, TransferTicket};
use crate::usb::fields;
use crate::usb::interrupt;
use crate::usb::interrupt::InterruptSnapshot;
use crate::usb::register;
use crate::usb::register::{Action, DmaWord, Wake};
use crate::usb::stage::ControlStage;
use crate::usb::state;
use crate::usb::state::{DirectionModel, UsbModel, UsbState};
use crate::usb::transfer::{ReadStage, WriteStage};
use crate::usb::types::{
    EndpointAllocError, EndpointError, EndpointType, Event, Unsupported,
};

verus! {

/// Whether the action writes the byte register at `offset`.
pub open spec fn writes(action: Action, offset: int) -> bool {
    action matches Action::Write8 { offset: written, .. } && written == offset
}

/// Whether action `k` is the last one that writes the byte register at `offset`,
/// and writes `value`.
pub open spec fn last_write(actions: Seq<Action>, k: int, offset: int, value: u8) -> bool {
    &&& 0 <= k < actions.len()
    &&& actions[k] matches Action::Write8 { offset: written, value: v } && written == offset && v
        == value
    &&& forall|j: int| k < j < actions.len() ==> !writes(#[trigger] actions[j], offset)
}

/// Whether performing the actions leaves `value` in the byte register at `offset`.
pub open spec fn leaves(actions: Seq<Action>, offset: int, value: u8) -> bool {
    exists|k: int| last_write(actions, k, offset, value)
}

/// Whether the actions write no byte register but those at `a` and `b`.
pub open spec fn writes_only(actions: Seq<Action>, a: int, b: int) -> bool {
    forall|k: int, offset: int|
        0 <= k < actions.len() && writes(#[trigger] actions[k], offset) ==> #[trigger] is_one_of(
            offset,
            a,
            b,
        )
}

/// Whether `offset` is `a` or `b`.
pub open spec fn is_one_of(offset: int, a: int, b: int) -> bool {
    offset == a || offset == b
}

/// Whether the actions wake the task.
pub open spec fn wakes(actions: Seq<Action>, task: Wake) -> bool {
    actions.contains(Action::Wake(task))
}

/// Whether the task is the only one that the actions wake.
pub open spec fn wakes_only(actions: Seq<Action>, task: Wake) -> bool {
    forall|k: int|
        0 <= k < actions.len() ==> (#[trigger] actions[k] matches Action::Wake(woken) ==> woken
            == task)
}

/// The two states agree on which endpoints are allocated and enabled, how often
/// that changed, on resets and on bus events.
pub open spec fn same_configuration(a: UsbModel, b: UsbModel) -> bool {
    &&& a.input.allocated == b.input.allocated
    &&& a.output.allocated == b.output.allocated
    &&& a.input.enabled == b.input.enabled
    &&& a.output.enabled == b.output.enabled
    &&& a.input.enables == b.input.enables
    &&& a.output.enables == b.output.enables
    &&& a.reset_generation == b.reset_generation
    &&& a.bus_events == b.bus_events
}

/// The two states agree on the SETUP packet.
pub open spec fn same_setup(a: UsbModel, b: UsbModel) -> bool {
    a.setup_pending == b.setup_pending && a.setup_packet == b.setup_packet
}

/// The two directions agree on the packets of every endpoint but `index`.
pub open spec fn same_packets_but(a: DirectionModel, b: DirectionModel, index: int) -> bool {
    &&& a.completions.len() == b.completions.len()
    &&& forall|i: int| i != index ==> (#[trigger] a.complete.contains(i) == b.complete.contains(i))
    &&& forall|i: int|
        0 <= i < a.completions.len() && i != index ==> #[trigger] a.completions[i]
            == b.completions[i]
}

/// The interrupt flags show a transfer.
pub open spec fn shows_transfer(snapshot: InterruptSnapshot) -> bool {
    snapshot.flags / 2 % 2 == 1
}

/// The transfer status marks a SETUP packet: by its top bit, whatever endpoint it
/// names, or by its token on an endpoint that has a bank.
pub open spec fn shows_setup(status: u8) -> bool {
    status >= 128 || (status % 16 < 4 && status / 16 % 4 == 3)
}

/// The transfer status is a received packet of endpoint `index` with the data
/// toggle that was expected.
pub open spec fn shows_out(status: u8, index: int) -> bool {
    status < 128 && status % 16 == index && status / 16 % 4 == 0 && status / 64 % 2 == 1
}

/// The transfer status is a packet of endpoint `index` that the host took.
pub open spec fn shows_in(status: u8, index: int) -> bool {
    status < 128 && status % 16 == index && status / 16 % 4 == 2
}

proof fn lemma_status_bits(s: u8)
    by (bit_vector)
    ensures
        s & 0x80u8 != 0 <==> s >= 128,
        s & 0x0fu8 == s % 16,
        s & 0x30u8 == (s / 16 % 4) * 16,
        s & 0x40u8 != 0 <==> s / 64 % 2 == 1,
        s & 0x01u8 != 0 <==> s % 2 == 1,
        s & 0x02u8 != 0 <==> s / 2 % 2 == 1,
        s & 0x04u8 != 0 <==> s / 4 % 2 == 1,
{
}

proof fn lemma_fixed_bytes()
    by (bit_vector)
    ensures
        fields::rx_data(0xcau8) == 1 && fields::tx_data(0xcau8) == 1,
        fields::rx_answer(0xcau8) == 2 && fields::tx_answer(0xcau8) == 2,
        fields::automatic(0xcau8) == 0,
        fields::rx_data(0xc2u8) == 1 && fields::tx_data(0xc2u8) == 1,
        fields::rx_answer(0xc2u8) == 0 && fields::tx_answer(0xc2u8) == 2,
        fields::automatic(0xc2u8) == 0,
        fields::rx_answer(0x02u8) == 0 && fields::tx_answer(0x02u8) == 2,
        fields::rx_data(0x02u8) == 0 && fields::tx_data(0x02u8) == 0,
        fields::automatic(0x02u8) == 0,
        fields::rx_answer(0x0fu8) == 3 && fields::tx_answer(0x0fu8) == 3,
        fields::rx_answer(0x12u8) == 0 && fields::tx_answer(0x12u8) == 2,
        fields::rx_answer(0x13u8) == 0 && fields::tx_answer(0x13u8) == 3,
        fields::rx_answer(0x1eu8) == 3 && fields::tx_answer(0x1eu8) == 2,
        fields::rx_answer(0x1fu8) == 3 && fields::tx_answer(0x1fu8) == 3,
        fields::automatic(0x12u8) == 1 && fields::automatic(0x13u8) == 1,
        fields::automatic(0x1eu8) == 1 && fields::automatic(0x1fu8) == 1,
        fields::rx_data(0x12u8) == 0 && fields::tx_data(0x12u8) == 0,
        fields::rx_data(0x13u8) == 0 && fields::tx_data(0x13u8) == 0,
        fields::rx_data(0x1eu8) == 0 && fields::tx_data(0x1eu8) == 0,
        fields::rx_data(0x1fu8) == 0 && fields::tx_data(0x1fu8) == 0,
{
}

/// The registers of the endpoints lie four bytes apart, the transmit length of
/// each two bytes below its control register.
pub proof fn endpoint_registers_are_regular(index: int)
    ensures
        register::spec_endpoint_control(0) == 0x22,
        register::spec_endpoint_control(index + 1) == register::spec_endpoint_control(index) + 4,
        register::spec_endpoint_tx_length(index) == register::spec_endpoint_control(index) - 2,
{
}

/// A SETUP packet is kept and handed to the control task, whatever endpoint the
/// status names. What was outstanding on endpoint zero is forgotten; endpoint
/// zero defers both directions and starts at DATA1. Nothing else changes.
pub proof fn setup_interrupt(
    state: &mut UsbState,
    snapshot: InterruptSnapshot,
    result: Vec<Action>,
)
    requires
        call_ensures(interrupt::usb_interrupt, (state, &snapshot), result),
        old(state)@.wf(),
        shows_transfer(snapshot),
        shows_setup(snapshot.status),
    ensures
        ({
            let model = old(state)@;
            let later = final(state)@;
            let actions = result@;
            &&& later.setup_pending
            &&& later.setup_packet == snapshot.setup@
            &&& !later.input.complete.contains(0)
            &&& !later.output.complete.contains(0)
            &&& later.input.completions == model.input.completions
            &&& later.output.completions == model.output.completions
            &&& same_packets_but(later.input, model.input, 0)
            &&& same_packets_but(later.output, model.output, 0)
            &&& later.out_lengths[0] == 8
            &&& forall|i: int| 0 < i < 4 ==> later.out_lengths[i] == model.out_lengths[i]
            &&& same_configuration(later, model)
            &&& exists|value: u8| #[trigger]
                leaves(actions, 0x22, value) && fields::rx_data(value) == 1 && fields::tx_data(
                    value,
                ) == 1 && fields::rx_answer(value) == 2 && fields::tx_answer(value) == 2
                    && fields::automatic(value) == 0
            &&& leaves(actions, 0x06, 0x02)
            &&& writes_only(actions, 0x22, 0x06)
            &&& wakes(actions, Wake::Control)
            &&& wakes_only(actions, Wake::Control)
        }),
{
    lemma_status_bits(snapshot.status);
    lemma_status_bits(snapshot.flags);
    lemma_fixed_bytes();
    let actions = result@;
    assert(actions.len() == 3);
    assert(last_write(actions, 0, 0x22, 0xca));
    assert(leaves(actions, 0x22, 0xca));
    assert(last_write(actions, 2, 0x06, 0x02));
    assert(actions[1] == Action::Wake(Wake::Control));
}

/// A received packet is recorded with its length and its task is woken. Endpoint
/// zero expects the other data packet next; any other endpoint defers the host
/// until the packet was taken. Nothing else changes.
pub proof fn out_interrupt(
    state: &mut UsbState,
    snapshot: InterruptSnapshot,
    result: Vec<Action>,
    index: int,
)
    requires
        call_ensures(interrupt::usb_interrupt, (state, &snapshot), result),
        old(state)@.wf(),
        shows_transfer(snapshot),
        0 <= index < 4,
        shows_out(snapshot.status, index),
    ensures
        ({
            let model = old(state)@;
            let later = final(state)@;
            let actions = result@;
            let task = if index == 0 {
                Wake::Control
            } else {
                Wake::Out(index as usize)
            };
            &&& later.output.complete.contains(index)
            &&& later.out_lengths[index] == snapshot.rx_len
            &&& forall|i: int|
                0 <= i < 4 && i != index ==> later.out_lengths[i] == model.out_lengths[i]
            &&& index == 0 ==> later.output.completions[0] == model.output.completions[0]
            &&& index != 0 ==> later.output.completions[index] == (model.output.completions[index]
                + 1) % 256
            &&& same_packets_but(later.output, model.output, index)
            &&& later.input == model.input
            &&& same_setup(later, model)
            &&& same_configuration(later, model)
            &&& exists|value: u8| #[trigger]
                leaves(actions, 0x22 + 4 * index, value) && fields::same_elsewhere(
                    value,
                    snapshot.control,
                    Direction::Out,
                ) && (index == 0 ==> fields::rx_data(value) != fields::rx_data(snapshot.control)
                    && fields::rx_answer(value) == fields::rx_answer(snapshot.control)) && (index
                    != 0 ==> fields::rx_data(value) == fields::rx_data(snapshot.control)
                    && fields::rx_answer(value) == 2)
            &&& leaves(actions, 0x06, 0x02)
            &&& writes_only(actions, 0x22 + 4 * index, 0x06)
            &&& wakes(actions, task)
            &&& wakes_only(actions, task)
        }),
{
    lemma_status_bits(snapshot.status);
    lemma_status_bits(snapshot.flags);
    let value = interrupt::control_after_out(index, snapshot.control);
    if index == 0 {
        fields::control_write_alternates(snapshot.control);
    } else {
        fields::received_packet_defers_the_next(index, snapshot.control);
    }
    let actions = result@;
    assert(actions.len() == 3);
    assert(last_write(actions, 0, 0x22 + 4 * index, value));
    assert(leaves(actions, 0x22 + 4 * index, value));
    assert(last_write(actions, 2, 0x06, 0x02));
    assert(actions[1] is Wake);
    assert(wakes(actions, actions[1]->Wake_0));
}

/// A packet that the host took is recorded and its task is woken. The endpoint
/// defers the host; endpoint zero sends the other data packet next. Nothing else
/// changes.
pub proof fn in_interrupt(
    state: &mut UsbState,
    snapshot: InterruptSnapshot,
    result: Vec<Action>,
    index: int,
)
    requires
        call_ensures(interrupt::usb_interrupt, (state, &snapshot), result),
        old(state)@.wf(),
        shows_transfer(snapshot),
        0 <= index < 4,
        shows_in(snapshot.status, index),
    ensures
        ({
            let model = old(state)@;
            let later = final(state)@;
            let actions = result@;
            let task = if index == 0 {
                Wake::Control
            } else {
                Wake::In(index as usize)
            };
            &&& later.input.complete.contains(index)
            &&& later.out_lengths == model.out_lengths
            &&& index == 0 ==> later.input.completions[0] == model.input.completions[0]
            &&& index != 0 ==> later.input.completions[index] == (model.input.completions[index]
                + 1) % 256
            &&& same_packets_but(later.input, model.input, index)
            &&& later.output == model.output
            &&& same_setup(later, model)
            &&& same_configuration(later, model)
            &&& exists|value: u8| #[trigger]
                leaves(actions, 0x22 + 4 * index, value) && fields::same_elsewhere(
                    value,
                    snapshot.control,
                    Direction::In,
                ) && fields::tx_answer(value) == 2 && (fields::tx_data(value) != fields::tx_data(
                    snapshot.control,
                ) <==> index == 0)
            &&& leaves(actions, 0x06, 0x02)
            &&& writes_only(actions, 0x22 + 4 * index, 0x06)
            &&& wakes(actions, task)
            &&& wakes_only(actions, task)
        }),
{
    lemma_status_bits(snapshot.status);
    lemma_status_bits(snapshot.flags);
    let value = interrupt::control_after_in(index, snapshot.control);
    fields::taken_packet_closes_the_endpoint(index, snapshot.control);
    let actions = result@;
    assert(actions.len() == 3);
    assert(last_write(actions, 0, 0x22 + 4 * index, value));
    assert(leaves(actions, 0x22 + 4 * index, value));
    assert(last_write(actions, 2, 0x06, 0x02));
    assert(actions[1] is Wake);
    assert(wakes(actions, actions[1]->Wake_0));
}

/// Any other transfer is acknowledged and changes nothing: a repeated OUT packet,
/// an endpoint without a bank, an unknown token.
pub proof fn other_transfer_interrupt(
    state: &mut UsbState,
    snapshot: InterruptSnapshot,
    result: Vec<Action>,
)
    requires
        call_ensures(interrupt::usb_interrupt, (state, &snapshot), result),
        shows_transfer(snapshot),
        !shows_setup(snapshot.status),
        forall|index: int| 0 <= index < 4 ==> !#[trigger] shows_out(snapshot.status, index),
        forall|index: int| 0 <= index < 4 ==> !#[trigger] shows_in(snapshot.status, index),
    ensures
        final(state)@ == old(state)@,
        result@ == seq![Action::Write8 { offset: 0x06, value: 0x02 }],
{
    lemma_status_bits(snapshot.status);
    lemma_status_bits(snapshot.flags);
    let index = snapshot.status as int % 16;
    assert(index < 4 ==> !shows_out(snapshot.status, index) && !shows_in(snapshot.status, index));
    assert(result@ =~= seq![
        Action::Write8 { offset: 0x06, value: 0x02 },
    ]);
}

/// A bus reset takes every endpoint away and forgets what was outstanding: the
/// device answers at address zero, endpoint zero accepts OUT and defers IN, and
/// every other endpoint stalls from DATA0 on. Every task is woken, and the reset
/// is reported.
pub proof fn reset_interrupt(
    state: &mut UsbState,
    snapshot: InterruptSnapshot,
    result: Vec<Action>,
    index: int,
)
    requires
        call_ensures(interrupt::usb_interrupt, (state, &snapshot), result),
        !shows_transfer(snapshot),
        snapshot.flags % 2 == 1,
        0 <= index < 4,
    ensures
        ({
            let model = old(state)@;
            let later = final(state)@;
            let actions = result@;
            &&& later.reset_generation == (model.reset_generation + 1) % 0x1_0000_0000
            &&& later.bus_events == model.bus_events.insert(0)
            &&& later.input.enabled == Set::<int>::empty()
            &&& later.output.enabled == Set::<int>::empty()
            &&& later.input.complete == Set::<int>::empty()
            &&& later.output.complete == Set::<int>::empty()
            &&& !later.setup_pending
            &&& later.input.allocated == model.input.allocated
            &&& later.output.allocated == model.output.allocated
            &&& later.input.enables == model.input.enables
            &&& later.output.enables == model.output.enables
            &&& later.input.completions == model.input.completions
            &&& later.output.completions == model.output.completions
            &&& leaves(actions, 0x03, 0x00)
            &&& leaves(actions, 0x06, 0x01)
            &&& exists|value: u8| #[trigger]
                leaves(actions, 0x22 + 4 * index, value) && fields::rx_data(value) == 0
                    && fields::tx_data(value) == 0 && (index == 0 ==> fields::rx_answer(value)
                    == 0 && fields::tx_answer(value) == 2 && fields::automatic(value) == 0) && (
                index != 0 ==> fields::rx_answer(value) == 3 && fields::tx_answer(value) == 3
                    && fields::automatic(value) == 1)
            &&& index != 0 ==> leaves(actions, 0x20 + 4 * index, 0)
            &&& wakes(actions, Wake::Bus)
            &&& wakes(actions, Wake::Control)
            &&& wakes(actions, Wake::In(index as usize))
            &&& wakes(actions, Wake::Out(index as usize))
        }),
{
    lemma_status_bits(snapshot.flags);
    lemma_fixed_bytes();
    reveal_with_fuel(state::reset_endpoint_actions, 5);
    let actions = result@;
    assert(actions.len() == 19);
    assert(last_write(actions, 0, 0x03, 0x00));
    assert(last_write(actions, 8, 0x06, 0x01));
    if index == 0 {
        assert(last_write(actions, 1, 0x22, 0x02));
        assert(leaves(actions, 0x22 + 4 * index, 0x02));
    } else {
        assert(last_write(actions, 2 * index, 0x22 + 4 * index, 0x1f));
        assert(leaves(actions, 0x22 + 4 * index, 0x1f));
        assert(last_write(actions, 2 * index + 1, 0x20 + 4 * index, 0));
    }
    assert(actions[18] == Action::Wake(Wake::Bus));
    assert(actions[9] == Action::Wake(Wake::Control));
    assert(actions[10 + index] == Action::Wake(Wake::In(index as usize)));
    assert(actions[14 + index] == Action::Wake(Wake::Out(index as usize)));
}

/// Suspend and resume are told apart by the status and reported to the bus task;
/// nothing else changes.
pub proof fn suspend_interrupt(
    state: &mut UsbState,
    snapshot: InterruptSnapshot,
    result: Vec<Action>,
)
    requires
        call_ensures(interrupt::usb_interrupt, (state, &snapshot), result),
        !shows_transfer(snapshot),
        snapshot.flags % 2 == 0,
        snapshot.flags / 4 % 2 == 1,
    ensures
        ({
            let model = old(state)@;
            let later = final(state)@;
            &&& later.bus_events == model.bus_events.insert(
                if snapshot.mis_st / 4 % 2 == 1 {
                    1
                } else {
                    2
                },
            )
            &&& later == (UsbModel { bus_events: later.bus_events, ..model })
            &&& result@ == seq![
                Action::Write8 { offset: 0x06, value: 0x04 },
                Action::Wake(Wake::Bus),
            ]
        }),
{
    lemma_status_bits(snapshot.flags);
    lemma_status_bits(snapshot.mis_st);
    assert(result@ =~= seq![
        Action::Write8 { offset: 0x06, value: 0x04 },
        Action::Wake(Wake::Bus),
    ]);
}

/// An interrupt without one of the three causes does nothing.
pub proof fn idle_interrupt(
    state: &mut UsbState,
    snapshot: InterruptSnapshot,
    result: Vec<Action>,
)
    requires
        call_ensures(interrupt::usb_interrupt, (state, &snapshot), result),
        snapshot.flags % 8 == 0,
    ensures
        final(state)@ == old(state)@,
        result@.len() == 0,
{
    lemma_status_bits(snapshot.flags);
}

/// The address that a DMA register points to: CH582 counts from the start of the
/// packet memory, CH585 takes the address as it is.
pub open spec fn pointed_address(chip: Chip, word: DmaWord) -> Option<int> {
    match (chip, word) {
        (Chip::Ch582, DmaWord::Half(offset)) => Some(0x2000_0000 + offset),
        (Chip::Ch585, DmaWord::Word(address)) => Some(address as int),
        _ => None,
    }
}

/// A DMA register points to the bank that it is written for, on either chip.
pub proof fn dma_register_points_to_bank(chip: Chip, address: int)
    requires
        chip::dma_address(chip, address),
    ensures
        pointed_address(chip, chip::dma_word(chip, address)) == Some(address),
{
}

/// The addresses that the DMA engine reaches: those whose upper half is that of
/// the packet memory, and on CH585 twice as many, in words.
pub proof fn dma_reaches_packet_memory(address: int)
    ensures
        chip::dma_address(Chip::Ch582, address) <==> address / 0x1_0000 == 0x2000,
        chip::dma_address(Chip::Ch585, address) <==> address / 0x2_0000 == 0x1000 && address % 4
            == 0,
{
}

/// The place of a bank in memory.
pub open spec fn bank_address(dma: DmaLayout, bank: Bank) -> int {
    match bank {
        Bank::Control => dma.control as int,
        Bank::Endpoint { offset } => dma.endpoints + offset,
    }
}

/// Enabling the bus points each DMA register to the place where the controller
/// finds the packets of that endpoint: OUT packets, and IN packets of an endpoint
/// used for IN alone, are at that address, and IN packets of an endpoint used both
/// ways follow 64 bytes later. Endpoints 1 to 3 take 128 bytes each.
pub proof fn banks_are_where_the_controller_looks(
    chip: Chip,
    dma: DmaLayout,
    pins: u16,
    allocated_in: Set<int>,
    allocated_out: Set<int>,
    index: int,
)
    requires
        dma.reachable(chip),
        0 <= index < 4,
    ensures
        ({
            let actions = bus::enable_actions(chip, dma, pins, allocated_in, allocated_out);
            let action = actions[4 + index];
            &&& action matches Action::WriteDma { index: i, word } && i == index && {
                &&& pointed_address(chip, word) matches Some(address) && {
                    &&& address == bank_address(
                        dma,
                        bank::spec_bank(index, Direction::Out, allocated_out),
                    )
                    &&& index == 0 ==> address == dma.control && bank_address(
                        dma,
                        bank::spec_bank(index, Direction::In, allocated_out),
                    ) == address
                    &&& index != 0 ==> address == dma.endpoints + (index - 1) * 128
                        && bank_address(
                        dma,
                        bank::spec_bank(index, Direction::In, allocated_out),
                    ) == (if allocated_out.contains(index) {
                        address + 64
                    } else {
                        address
                    })
                }
            }
            &&& forall|k: int|
                0 <= k < actions.len() && !(4 <= k < 8) ==> !(#[trigger] actions[k] is WriteDma)
        }),
{
    reveal_with_fuel(bus::dma_actions, 5);
    reveal_with_fuel(state::reset_endpoint_actions, 5);
    let actions = bus::enable_actions(chip, dma, pins, allocated_in, allocated_out);
    assert(actions.len() == 24);
    assert(chip::dma_address(chip, dma.address(index)));
    dma_register_points_to_bank(chip, dma.address(index));
}

/// The byte of the endpoint memory that the controller sends as byte `i` of an IN
/// packet of endpoint `index`.
pub open spec fn sent_byte(memory: MemoryModel, index: int, allocated_out: Set<int>, i: int) -> u8 {
    memory.endpoints[(index - 1) * 128 + (if allocated_out.contains(index) {
        64int
    } else {
        0
    }) + i]
}

/// A write puts its packet where the controller sends from: byte for byte, and
/// without touching any other byte of the packet memory.
pub proof fn written_packet_is_what_is_sent(
    endpoint: Endpoint,
    model: UsbModel,
    memory: MemoryModel,
    data: Seq<u8>,
    i: int,
)
    requires
        endpoint.wf(),
        memory.wf(),
        data.len() <= endpoint.info.max_packet_size,
        model.input.enabled.contains(endpoint.info.addr.spec_index()),
    ensures
        ({
            let index = endpoint.info.addr.spec_index();
            let start = (index - 1) * 128 + (if model.output.allocated.contains(index) {
                64int
            } else {
                0
            });
            let later = endpoint.write_memory(WriteStage::Request, model, memory, data);
            &&& later.control == memory.control
            &&& later.wf()
            &&& 0 <= i < data.len() ==> sent_byte(later, index, model.output.allocated, i)
                == data[i]
            &&& 0 <= i < 384 && !(start <= i < start + data.len()) ==> later.endpoints[i]
                == memory.endpoints[i]
        }),
{
}

/// A read gives the bytes that the controller received into the endpoint's bank,
/// and leaves the rest of the caller's buffer alone.
pub proof fn read_gives_what_was_received(
    endpoint: Endpoint,
    memory: MemoryModel,
    output: Seq<u8>,
    length: usize,
    i: int,
)
    requires
        endpoint.wf(),
        memory.wf(),
        length <= 64,
        length <= output.len(),
        0 <= i < output.len(),
    ensures
        ({
            let later = endpoint.read_output(ReadStage::Copy(length), memory, output);
            &&& later.len() == output.len()
            &&& later[i] == (if i < length {
                memory.endpoints[(endpoint.info.addr.spec_index() - 1) * 128 + i]
            } else {
                output[i]
            })
        }),
{
}

/// When a write is refused: a packet that is too long always, otherwise one of an
/// endpoint that is not enabled.
pub proof fn write_refusals(endpoint: Endpoint, model: UsbModel, length: int)
    ensures
        ({
            let next = endpoint.write_next(WriteStage::Request, model, length);
            let enabled = model.input.enabled.contains(endpoint.info.addr.spec_index());
            &&& length > endpoint.info.max_packet_size ==> next == WriteStage::Done(
                Err(EndpointError::BufferOverflow),
            )
            &&& length <= endpoint.info.max_packet_size && !enabled ==> next == WriteStage::Done(
                Err(EndpointError::Disabled),
            )
            &&& length <= endpoint.info.max_packet_size && enabled ==> next is Arm
        }),
{
}

/// When a read is refused: at once if the endpoint is not enabled, and with the
/// packet at hand if it does not fit the caller's buffer.
pub proof fn read_refusals(
    endpoint: Endpoint,
    model: UsbModel,
    capacity: int,
    control: u8,
    length: usize,
)
    ensures
        ({
            let enabled = model.output.enabled.contains(endpoint.info.addr.spec_index());
            let next = endpoint.read_next(ReadStage::Request, model, capacity, control);
            let end = endpoint.read_next(ReadStage::Copy(length), model, capacity, control);
            &&& !enabled ==> next == ReadStage::Done(Err(EndpointError::Disabled))
            &&& enabled ==> next is Start
            &&& length > capacity ==> end == ReadStage::Done(Err(EndpointError::BufferOverflow))
            &&& length <= capacity ==> end == ReadStage::Done(Ok(length))
        }),
{
}

/// Arming a write announces the packet's length and opens the endpoint for it;
/// the rest of the endpoint's control register is kept.
pub proof fn armed_write_opens_endpoint(
    endpoint: Endpoint,
    ticket: TransferTicket,
    model: UsbModel,
    length: int,
    control: u8,
)
    requires
        ticket.live(model),
        0 <= ticket.index < 4,
        0 <= length <= 64,
    ensures
        ({
            let index = ticket.index as int;
            let actions = endpoint.write_actions(WriteStage::Arm(ticket), model, length, control);
            &&& leaves(actions, 0x20 + 4 * index, length as u8)
            &&& exists|value: u8| #[trigger]
                leaves(actions, 0x22 + 4 * index, value) && fields::tx_answer(value) == 0
                    && fields::tx_data(value) == fields::tx_data(control)
                    && fields::same_elsewhere(value, control, Direction::In)
            &&& writes_only(actions, 0x20 + 4 * index, 0x22 + 4 * index)
            &&& endpoint.write_next(WriteStage::Arm(ticket), model, length) is Wait
        }),
{
    fields::response_is_one_field(control, Direction::In, 0);
    let actions = endpoint.write_actions(WriteStage::Arm(ticket), model, length, control);
    let index = ticket.index as int;
    let value = register::with_tx(control, 0);
    assert(last_write(actions, 0, 0x20 + 4 * index, length as u8));
    assert(last_write(actions, 1, 0x22 + 4 * index, value));
    assert(leaves(actions, 0x22 + 4 * index, value));
}

/// A read that finds no packet opens the endpoint for one; the rest of the
/// endpoint's control register is kept.
pub proof fn armed_read_opens_endpoint(
    endpoint: Endpoint,
    ticket: TransferTicket,
    model: UsbModel,
    capacity: int,
    control: u8,
)
    requires
        ticket.live(model),
        ticket.direction == Direction::Out,
        0 <= ticket.index < 4,
        !model.output.complete.contains(ticket.index as int),
    ensures
        ({
            let index = ticket.index as int;
            let actions = endpoint.read_actions(ReadStage::Start(ticket), model, control);
            &&& exists|value: u8| #[trigger]
                leaves(actions, 0x22 + 4 * index, value) && fields::rx_answer(value) == 0
                    && fields::rx_data(value) == fields::rx_data(control)
                    && fields::same_elsewhere(value, control, Direction::Out)
            &&& writes_only(actions, 0x22 + 4 * index, 0x22 + 4 * index)
            &&& endpoint.read_next(ReadStage::Start(ticket), model, capacity, control) is Wait
        }),
{
    fields::response_is_one_field(control, Direction::Out, 0);
    let actions = endpoint.read_actions(ReadStage::Start(ticket), model, control);
    let index = ticket.index as int;
    let value = register::with_rx(control, 0);
    assert(last_write(actions, 0, 0x22 + 4 * index, value));
    assert(leaves(actions, 0x22 + 4 * index, value));
}

/// What dropping a transfer writes: an endpoint that is open defers the host
/// instead, any other answer and all else is kept.
pub proof fn release_closes_only_open_endpoint(control: u8, direction: Direction)
    ensures
        ({
            let result = crate::usb::endpoint::release_control(direction, control);
            &&& fields::answer(result, direction) == (if fields::answer(control, direction) == 0 {
                2
            } else {
                fields::answer(control, direction)
            })
            &&& fields::data(result, direction) == fields::data(control, direction)
            &&& fields::same_elsewhere(result, control, direction)
        }),
{
    fields::response_is_one_field(control, direction, 2);
    fields::response_codes(direction, control);
}

/// Enabling an endpoint starts it over at DATA0: IN defers the host until a packet
/// is there, OUT accepts. Disabling stalls it and keeps its toggle. The other
/// direction is kept either way, and the task of the endpoint is woken.
pub proof fn enabled_endpoint_starts_over(control: u8, direction: Direction, enabled: bool)
    ensures
        ({
            let result = bus::control_after_enable(direction, enabled, control);
            &&& fields::same_elsewhere(result, control, direction)
            &&& enabled ==> fields::data(result, direction) == 0
            &&& !enabled ==> fields::data(result, direction) == fields::data(control, direction)
            &&& fields::answer(result, direction) == (match (enabled, direction) {
                (true, Direction::In) => 2u8,
                (true, Direction::Out) => 0,
                (false, _) => 3,
            })
        }),
{
    let start = control & !register::toggle(direction);
    fields::cleared_toggle_is_data0(control, direction);
    fields::response_is_one_field(start, direction, 0);
    fields::response_is_one_field(start, direction, 2);
    fields::response_is_one_field(control, direction, 3);
}

/// Enabling or disabling an endpoint is counted, and changes that endpoint in that
/// direction alone. Disabling drops its packet; enabling keeps it.
pub proof fn enabling_touches_one_endpoint(
    model: UsbModel,
    direction: Direction,
    index: int,
    enabled: bool,
    other: int,
)
    requires
        model.wf(),
        0 <= index < 4,
        0 <= other < 4,
    ensures
        ({
            let later = model.after_set_enabled(direction, index, enabled);
            let side = model.side(direction);
            let after = later.side(direction);
            &&& after.enabled.contains(other) == (if other == index {
                enabled
            } else {
                side.enabled.contains(other)
            })
            &&& after.complete.contains(other) == (side.complete.contains(other) && (enabled
                || other != index))
            &&& after.enables[other] == (if other == index {
                (side.enables[other] + 1) % 0x1_0000_0000
            } else {
                side.enables[other] as int
            })
            &&& after.completions == side.completions
            &&& after.allocated == side.allocated
            &&& later.side(fields::opposite(direction)) == model.side(fields::opposite(direction))
            &&& same_setup(later, model)
            &&& later.out_lengths == model.out_lengths
            &&& later.reset_generation == model.reset_generation
            &&& later.bus_events == model.bus_events
        }),
{
}

/// A halt stalls the endpoint and keeps its toggle. Clearing it starts over at
/// DATA0: IN defers the host, and so does OUT while its bank holds a packet,
/// otherwise OUT accepts. The other direction is kept.
pub proof fn cleared_halt_starts_over(
    control: u8,
    direction: Direction,
    stalled: bool,
    pending: bool,
)
    ensures
        ({
            let result = bus::control_after_stall(direction, stalled, pending, control);
            &&& fields::same_elsewhere(result, control, direction)
            &&& fields::data(result, direction) == (if stalled {
                fields::data(control, direction)
            } else {
                0
            })
            &&& fields::answer(result, direction) == (if stalled {
                3u8
            } else if direction == Direction::Out && !pending {
                0
            } else {
                2
            })
        }),
{
    let start = control & !register::toggle(direction);
    fields::cleared_toggle_is_data0(control, direction);
    fields::response_is_one_field(start, direction, 0);
    fields::response_is_one_field(start, direction, 2);
    fields::response_is_one_field(control, direction, 3);
}

/// Starting an endpoint over leaves it as its directions are enabled: OUT accepts
/// or stalls, IN defers or stalls, both from DATA0 and with automatic toggles.
pub proof fn reset_control_shows_enabled(enabled_in: bool, enabled_out: bool)
    ensures
        ({
            let value = state::reset_control(enabled_in, enabled_out);
            &&& fields::rx_answer(value) == (if enabled_out {
                0u8
            } else {
                3
            })
            &&& fields::tx_answer(value) == (if enabled_in {
                2u8
            } else {
                3
            })
            &&& fields::rx_data(value) == 0
            &&& fields::tx_data(value) == 0
            &&& fields::automatic(value) == 1
        }),
{
    lemma_fixed_bytes();
}

/// Each mode bit stands for one direction of one endpoint: in the first byte for
/// endpoint 1, in the second for endpoints 2 and 3, always the receiver above the
/// transmitter; all other bits are clear.
pub proof fn mode_bits_stand_for_endpoints(allocated_in: Set<int>, allocated_out: Set<int>)
    ensures
        ({
            let modes = bus::mode_bytes(allocated_in, allocated_out);
            &&& modes.len() == 3
            &&& (modes[0] as int / 128 == 1) == allocated_out.contains(1)
            &&& (modes[0] as int / 64 % 2 == 1) == allocated_in.contains(1)
            &&& modes[0] as int % 64 == 0
            &&& (modes[1] as int / 128 == 1) == allocated_out.contains(3)
            &&& (modes[1] as int / 64 % 2 == 1) == allocated_in.contains(3)
            &&& (modes[1] as int / 8 % 2 == 1) == allocated_out.contains(2)
            &&& (modes[1] as int / 4 % 2 == 1) == allocated_in.contains(2)
            &&& modes[1] as int / 16 % 4 == 0
            &&& modes[1] as int % 4 == 0
            &&& modes[2] == 0
        }),
{
}

proof fn lemma_pin_bits(p: u16, e: u16, d: u16)
    by (bit_vector)
    requires
        e == p | 0x0040u16 | 0x0080u16,
        d == p & !0x0040u16,
    ensures
        e / 64 % 4 == 3,
        e / 256 == p / 256,
        e % 64 == p % 64,
        d / 64 % 2 == 0,
        d / 128 == p / 128,
        d % 64 == p % 64,
{
}

/// The pin bits: enabling sets the two USB bits, the pull-up and the one above it;
/// disconnecting clears the pull-up. Every other pin is kept.
pub proof fn usb_pins_are_two_bits(pins: u16)
    ensures
        (pins | chip::USB_DP_PULLUP | chip::USB_PINS_ENABLE) / 64 % 4 == 3,
        (pins | chip::USB_DP_PULLUP | chip::USB_PINS_ENABLE) / 256 == pins / 256,
        (pins | chip::USB_DP_PULLUP | chip::USB_PINS_ENABLE) % 64 == pins % 64,
        (pins & !chip::USB_DP_PULLUP) / 64 % 2 == 0,
        (pins & !chip::USB_DP_PULLUP) / 128 == pins / 128,
        (pins & !chip::USB_DP_PULLUP) % 64 == pins % 64,
{
    lemma_pin_bits(
        pins,
        pins | chip::USB_DP_PULLUP | chip::USB_PINS_ENABLE,
        pins & !chip::USB_DP_PULLUP,
    );
}

/// Enabling the bus leaves the controller running as a device with DMA and
/// automatic busy answers, at address zero, with every flag cleared and the three
/// interrupt causes on; endpoint zero accepts OUT, and every other endpoint stalls
/// until the host configures it.
pub proof fn enabled_bus_waits_for_host(
    chip: Chip,
    dma: DmaLayout,
    pins: u16,
    allocated_in: Set<int>,
    allocated_out: Set<int>,
    index: int,
)
    requires
        1 <= index < 4,
    ensures
        ({
            let actions = bus::enable_actions(chip, dma, pins, allocated_in, allocated_out);
            let modes = bus::mode_bytes(allocated_in, allocated_out);
            &&& actions.len() == 24
            &&& leaves(actions, 0x00, 0x29)
            &&& leaves(actions, 0x01, 0x81)
            &&& leaves(actions, 0x02, 0x07)
            &&& leaves(actions, 0x03, 0x00)
            &&& leaves(actions, 0x06, 0xff)
            &&& leaves(actions, 0x0c, modes[0])
            &&& leaves(actions, 0x0d, modes[1])
            &&& leaves(actions, 0x0e, modes[2])
            &&& leaves(actions, 0x22, 0x02)
            &&& leaves(actions, 0x20 + 4 * index, 0x00)
            &&& exists|value: u8| #[trigger]
                leaves(actions, 0x22 + 4 * index, value) && fields::rx_answer(value) == 3
                    && fields::tx_answer(value) == 3
            &&& actions[18] matches Action::WritePins { pins: after } && after / 64 % 4 == 3
                && after / 256 == pins / 256 && after % 64 == pins % 64
            &&& actions[22] == Action::Pfic(PficAction::SetPriority { irq: 22, bits: 16 })
            &&& actions[23] == Action::Pfic(PficAction::Enable { irq: 22 })
        }),
{
    reveal_with_fuel(bus::dma_actions, 5);
    reveal_with_fuel(state::reset_endpoint_actions, 5);
    lemma_fixed_bytes();
    usb_pins_are_two_bits(pins);
    let actions = bus::enable_actions(chip, dma, pins, allocated_in, allocated_out);
    let modes = bus::mode_bytes(allocated_in, allocated_out);
    assert(actions.len() == 24);
    assert(last_write(actions, 17, 0x00, 0x29));
    assert(last_write(actions, 20, 0x01, 0x81));
    assert(last_write(actions, 21, 0x02, 0x07));
    assert(last_write(actions, 16, 0x03, 0x00));
    assert(last_write(actions, 19, 0x06, 0xff));
    assert(last_write(actions, 1, 0x0c, modes[0]));
    assert(last_write(actions, 2, 0x0d, modes[1]));
    assert(last_write(actions, 3, 0x0e, modes[2]));
    assert(last_write(actions, 9, 0x22, 0x02));
    assert(last_write(actions, 8 + 2 * index, 0x22 + 4 * index, 0x1f));
    assert(last_write(actions, 9 + 2 * index, 0x20 + 4 * index, 0x00));
    assert(leaves(actions, 0x22 + 4 * index, 0x1f));
}

/// Enabling the bus makes the allocation known to the interrupt handler and
/// forgets what was outstanding; no endpoint is enabled yet.
pub proof fn enabled_bus_state(model: UsbModel, allocated_in: Set<int>, allocated_out: Set<int>)
    ensures
        ({
            let later = model.after_enable(allocated_in, allocated_out);
            &&& later.input.allocated == allocated_in
            &&& later.output.allocated == allocated_out
            &&& later.input.enabled == Set::<int>::empty()
            &&& later.output.enabled == Set::<int>::empty()
            &&& later.input.complete == Set::<int>::empty()
            &&& later.output.complete == Set::<int>::empty()
            &&& !later.setup_pending
            &&& later.bus_events == model.bus_events
            &&& later.reset_generation == model.reset_generation
        }),
{
}

/// Disabling the bus keeps its interrupt from being taken before anything else,
/// stops the controller, counts as a reset for every transfer, and wakes every
/// task.
pub proof fn disabled_bus_is_silent(model: UsbModel, index: int)
    requires
        0 <= index < 4,
    ensures
        ({
            let actions = bus::disable_actions();
            let later = model.after_disable();
            &&& actions[0] == Action::Pfic(PficAction::Disable { irq: 22 })
            &&& leaves(actions, 0x00, 0x00)
            &&& leaves(actions, 0x01, 0x80)
            &&& leaves(actions, 0x02, 0x00)
            &&& wakes(actions, Wake::Control)
            &&& wakes(actions, Wake::In(index as usize))
            &&& wakes(actions, Wake::Out(index as usize))
            &&& later.reset_generation == (model.reset_generation + 1) % 0x1_0000_0000
            &&& later.input.enabled == Set::<int>::empty()
            &&& later.output.enabled == Set::<int>::empty()
            &&& later.bus_events == model.bus_events
            &&& same_setup(later, model)
            &&& later.input.complete == model.input.complete
            &&& later.output.complete == model.output.complete
        }),
{
    let actions = bus::disable_actions();
    assert(actions.len() == 13);
    assert(last_write(actions, 3, 0x00, 0x00));
    assert(last_write(actions, 2, 0x01, 0x80));
    assert(last_write(actions, 1, 0x02, 0x00));
    assert(actions[4] == Action::Wake(Wake::Control));
    assert(actions[5 + index] == Action::Wake(Wake::In(index as usize)));
    assert(actions[9 + index] == Action::Wake(Wake::Out(index as usize)));
}

/// The bus events by number: reset, suspend, resume and power, taken in this
/// order.
pub proof fn events_have_their_numbers(events: Set<int>)
    ensures
        bus::next_event(events) matches Some((number, event)) ==> match event {
            Event::Reset => number == 0,
            Event::Suspend => number == 1,
            Event::Resume => number == 2,
            Event::PowerDetected => number == 3,
        },
{
}

/// A status stage offers an empty packet, and accepts OUT packets meanwhile; both
/// toggles are kept.
pub proof fn status_stage_offers_empty_packet(
    pipe: ControlPipe,
    model: UsbModel,
    address: Option<u8>,
    control: u8,
    dev_ad: u8,
)
    requires
        model.reset_generation == pipe.reset_generation,
        !model.setup_pending,
    ensures
        ({
            let actions = pipe.status_step_actions(
                ControlStage::Request,
                model,
                address,
                control,
                dev_ad,
            );
            &&& leaves(actions, 0x20, 0)
            &&& exists|value: u8| #[trigger]
                leaves(actions, 0x22, value) && fields::tx_answer(value) == 0
                    && fields::rx_answer(value) == 0 && fields::rx_data(value) == fields::rx_data(
                    control,
                ) && fields::tx_data(value) == fields::tx_data(control)
            &&& writes_only(actions, 0x20, 0x22)
            &&& pipe.status_next(ControlStage::Request, model) is Wait
        }),
{
    fields::offered_control_packet_keeps_toggles(control, 0);
    let actions = pipe.status_step_actions(ControlStage::Request, model, address, control, dev_ad);
    let value = crate::usb::control::in_control(control, 0);
    assert(last_write(actions, 0, 0x20, 0));
    assert(last_write(actions, 1, 0x22, value));
    assert(leaves(actions, 0x22, value));
}

/// When the host has taken the status packet, the request is complete: the device
/// has the assigned address, all seven bits of it and with the top bit of the
/// register kept, or the address that it had if none was assigned. Endpoint zero
/// accepts OUT, defers IN and is back at DATA0.
pub proof fn status_stage_installs_address(
    pipe: ControlPipe,
    guard: ControlTransferGuard,
    length: usize,
    model: UsbModel,
    address: Option<u8>,
    control: u8,
    dev_ad: u8,
)
    requires
        model.reset_generation == guard.reset_generation,
        !model.setup_pending,
    ensures
        ({
            let actions = pipe.status_step_actions(
                ControlStage::Finish(guard, length),
                model,
                address,
                control,
                dev_ad,
            );
            &&& address matches Some(assigned) ==> exists|value: u8| #[trigger]
                leaves(actions, 0x03, value) && value % 128 == assigned % 128 && value / 128
                    == dev_ad / 128 && (assigned < 128 ==> value % 128 == assigned)
            &&& address is None ==> forall|k: int|
                0 <= k < actions.len() ==> !writes(#[trigger] actions[k], 0x03)
            &&& exists|value: u8| #[trigger]
                leaves(actions, 0x22, value) && fields::rx_answer(value) == 0
                    && fields::tx_answer(value) == 2 && fields::rx_data(value) == 0
                    && fields::tx_data(value) == 0
            &&& writes_only(actions, 0x22, 0x03)
            &&& pipe.status_next(ControlStage::Finish(guard, length), model)
                == ControlStage::Done(Ok::<(), EndpointError>(()))
        }),
{
    lemma_fixed_bytes();
    let actions = pipe.status_step_actions(
        ControlStage::Finish(guard, length),
        model,
        address,
        control,
        dev_ad,
    );
    assert(last_write(actions, 0, 0x22, 0x02));
    assert(leaves(actions, 0x22, 0x02));
    if let Some(assigned) = address {
        fields::address_is_installed_whole(dev_ad, assigned);
        let value = crate::usb::control::address_byte(dev_ad, assigned);
        assert(last_write(actions, 1, 0x03, value));
        assert(leaves(actions, 0x03, value));
    }
}

/// A data packet of a control read is offered with its length. Until the last one
/// OUT packets are deferred; with the last one the host's status packet is
/// accepted. Both toggles are kept. A packet that is too long is refused.
pub proof fn data_in_offers_packet(
    pipe: ControlPipe,
    model: UsbModel,
    length: int,
    last: bool,
    control: u8,
)
    requires
        pipe.wf(),
        model.reset_generation == pipe.reset_generation,
        !model.setup_pending,
        0 <= length,
    ensures
        ({
            let actions = pipe.data_in_actions(
                ControlStage::Request,
                model,
                length,
                last,
                control,
            );
            let next = pipe.data_in_next(ControlStage::Request, model, length, last);
            &&& length > pipe.max_packet_size ==> next == ControlStage::Done(
                Err::<(), _>(EndpointError::BufferOverflow),
            ) && actions.len() == 0
            &&& length <= pipe.max_packet_size ==> {
                &&& next is Wait
                &&& leaves(actions, 0x20, length as u8)
                &&& exists|value: u8| #[trigger]
                    leaves(actions, 0x22, value) && fields::tx_answer(value) == 0
                        && fields::rx_answer(value) == (if last {
                        0u8
                    } else {
                        2
                    }) && fields::rx_data(value) == fields::rx_data(control) && fields::tx_data(
                        value,
                    ) == fields::tx_data(control)
                &&& writes_only(actions, 0x20, 0x22)
            }
        }),
{
    let code: u8 = if last {
        0
    } else {
        2
    };
    fields::offered_control_packet_keeps_toggles(control, code);
    let actions = pipe.data_in_actions(ControlStage::Request, model, length, last, control);
    if length <= pipe.max_packet_size {
        let value = crate::usb::control::in_control(control, (code * 4) as u8);
        assert(last_write(actions, 0, 0x20, length as u8));
        assert(last_write(actions, 1, 0x22, value));
        assert(leaves(actions, 0x22, value));
    }
}

/// When the host has taken the last data packet of a control read, endpoint zero
/// accepts its status packet: OUT at DATA1. Before the last one nothing is
/// written, so the toggles go on alternating.
pub proof fn data_in_ends_with_status(
    pipe: ControlPipe,
    guard: ControlTransferGuard,
    taken: usize,
    model: UsbModel,
    length: int,
    last: bool,
    control: u8,
)
    requires
        model.reset_generation == guard.reset_generation,
        !model.setup_pending,
    ensures
        ({
            let actions = pipe.data_in_actions(
                ControlStage::Finish(guard, taken),
                model,
                length,
                last,
                control,
            );
            &&& pipe.data_in_next(ControlStage::Finish(guard, taken), model, length, last)
                == ControlStage::Done(Ok::<(), EndpointError>(()))
            &&& !last ==> actions.len() == 0
            &&& last ==> exists|value: u8| #[trigger]
                leaves(actions, 0x22, value) && fields::rx_data(value) == 1
                    && fields::rx_answer(value) == 0 && fields::tx_answer(value) == 2
                    && fields::tx_data(value) == 1
            &&& writes_only(actions, 0x22, 0x22)
        }),
{
    lemma_fixed_bytes();
    let actions = pipe.data_in_actions(
        ControlStage::Finish(guard, taken),
        model,
        length,
        last,
        control,
    );
    if last {
        assert(last_write(actions, 0, 0x22, 0xc2));
        assert(leaves(actions, 0x22, 0xc2));
    }
}

/// Receiving a data packet of a control write opens endpoint zero for it and keeps
/// everything else; a packet that does not fit the buffer is refused.
pub proof fn data_out_opens_endpoint_zero(
    pipe: ControlPipe,
    guard: ControlTransferGuard,
    model: UsbModel,
    capacity: int,
    length: usize,
    control: u8,
)
    requires
        model.reset_generation == pipe.reset_generation,
        model.reset_generation == guard.reset_generation,
        !model.setup_pending,
    ensures
        ({
            let actions = pipe.data_out_actions(ControlStage::Request, model, control);
            let end = pipe.data_out_next(ControlStage::Finish(guard, length), model, capacity);
            &&& pipe.data_out_next(ControlStage::Request, model, capacity) is Wait
            &&& exists|value: u8| #[trigger]
                leaves(actions, 0x22, value) && fields::rx_answer(value) == 0
                    && fields::rx_data(value) == fields::rx_data(control)
                    && fields::same_elsewhere(value, control, Direction::Out)
            &&& writes_only(actions, 0x22, 0x22)
            &&& length > capacity ==> end == ControlStage::<usize>::Release(
                guard,
                EndpointError::BufferOverflow,
            )
            &&& length <= capacity ==> end == ControlStage::Done(Ok::<usize, EndpointError>(length))
        }),
{
    fields::response_is_one_field(control, Direction::Out, 0);
    let actions = pipe.data_out_actions(ControlStage::Request, model, control);
    let value = register::with_rx(control, 0);
    assert(last_write(actions, 0, 0x22, value));
    assert(leaves(actions, 0x22, value));
}

/// A stage that waits goes on exactly when endpoint zero had a packet in its
/// direction, with the length of the last one received, and takes that packet
/// alone.
pub proof fn waiting_stage_takes_one_packet(
    pipe: ControlPipe,
    guard: ControlTransferGuard,
    model: UsbModel,
    direction: Direction,
)
    requires
        model.reset_generation == pipe.reset_generation,
        !model.setup_pending,
    ensures
        ({
            let later = pipe.wait_model(model, direction);
            &&& pipe.wait_next::<()>(guard, model, direction) == (if model.side(
                direction,
            ).complete.contains(0) {
                ControlStage::<()>::Finish(guard, model.out_lengths[0] as usize)
            } else {
                ControlStage::<()>::Wait(guard)
            })
            &&& !later.side(direction).complete.contains(0)
            &&& same_packets_but(later.side(direction), model.side(direction), 0)
            &&& later.side(fields::opposite(direction)) == model.side(fields::opposite(direction))
            &&& same_setup(later, model)
            &&& same_configuration(later, model)
            &&& pipe.wait_pipe(model) == pipe
        }),
{
}

proof fn lemma_ctrl_bits(c: u8, r: u8, e: u8, w: u8, d: u8)
    by (bit_vector)
    requires
        r == c | 0x04u8,
        e == c & !0x04u8,
        w == (c & !0x30u8) | 0x30u8,
        d == (c & !0x30u8) | 0x20u8,
    ensures
        r / 4 % 2 == 1 && r / 8 == c / 8 && r % 4 == c % 4,
        e / 4 % 2 == 0 && e / 8 == c / 8 && e % 4 == c % 4,
        w / 16 % 4 == 3 && w / 64 == c / 64 && w % 16 == c % 16,
        d / 16 % 4 == 2 && d / 64 == c / 64 && d % 16 == c % 16,
{
}

/// Forcing a bus reset sets one bit of the main control register and releases it
/// again; nothing else in the register changes.
pub proof fn forced_reset_is_one_bit(
    bus: &mut Bus,
    reset: &mut Bus,
    ctrl: u8,
    begun: u8,
    later: u8,
    ended: u8,
)
    requires
        call_ensures(Bus::begin_force_reset, (bus, ctrl), begun),
        call_ensures(Bus::end_force_reset, (reset, later), ended),
    ensures
        begun / 4 % 2 == 1 && begun / 8 == ctrl / 8 && begun % 4 == ctrl % 4,
        ended / 4 % 2 == 0 && ended / 8 == later / 8 && ended % 4 == later % 4,
        *final(bus) == *old(bus),
        *final(reset) == *old(reset),
{
    lemma_ctrl_bits(ctrl, begun, ctrl & !0x04u8, (ctrl & !0x30u8) | 0x30u8, (ctrl & !0x30u8)
        | 0x20u8);
    lemma_ctrl_bits(later, later | 0x04u8, ended, (later & !0x30u8) | 0x30u8, (later & !0x30u8)
        | 0x20u8);
}

/// The host is woken exactly when the bus is enabled and suspended. The mode field
/// of the main control register is 3 meanwhile and 2 afterwards; nothing else in
/// the register changes.
pub proof fn wakeup_is_the_mode_field(
    bus: &mut Bus,
    awake: &mut Bus,
    mis_st: u8,
    ctrl: u8,
    begun: Result<u8, Unsupported>,
    later: u8,
    ended: u8,
)
    requires
        call_ensures(Bus::begin_remote_wakeup, (bus, mis_st, ctrl), begun),
        call_ensures(Bus::end_remote_wakeup, (awake, later), ended),
    ensures
        begun is Ok <==> old(bus).enabled && mis_st / 4 % 2 == 1,
        begun matches Ok(value) ==> value / 16 % 4 == 3 && value / 64 == ctrl / 64 && value % 16
            == ctrl % 16,
        ended / 16 % 4 == 2 && ended / 64 == later / 64 && ended % 16 == later % 16,
        *final(bus) == *old(bus),
        *final(awake) == *old(awake),
{
    lemma_status_bits(mis_st);
    lemma_ctrl_bits(ctrl, ctrl | 0x04u8, ctrl & !0x04u8, (ctrl & !0x30u8) | 0x30u8, (ctrl
        & !0x30u8) | 0x20u8);
    lemma_ctrl_bits(later, later | 0x04u8, later & !0x04u8, (later & !0x30u8) | 0x30u8, ended);
}

proof fn lemma_address_bits(raw: u8)
    by (bit_vector)
    ensures
        raw & !0x80u8 == raw % 128,
        raw & 0x80u8 != 0 <==> raw >= 128,
{
}

/// An endpoint address is the endpoint number, with 128 added for IN.
pub proof fn address_is_number_and_direction(address: EndpointAddress)
    ensures
        address.spec_index() == address.raw as int % 128,
        address.spec_direction() == Direction::In <==> address.raw >= 128,
{
    lemma_address_bits(address.raw);
}

/// An endpoint is halted exactly when its direction stalls.
pub proof fn halted_endpoint_stalls(
    bus: &mut Bus,
    address: EndpointAddress,
    control: u8,
    stalled: bool,
)
    requires
        call_ensures(Bus::endpoint_is_stalled, (bus, address, control), stalled),
    ensures
        stalled <==> (if address.raw >= 128 {
            control % 4
        } else {
            control / 4 % 4
        }) == 3,
{
    address_is_number_and_direction(address);
    fields::response_codes(address.spec_direction(), control);
}

/// Halting an endpoint and clearing the halt write its own control register, as
/// the address names it, and nothing else.
pub proof fn halting_writes_one_endpoint(
    bus: &mut Bus,
    state: &UsbState,
    address: EndpointAddress,
    stalled: bool,
    control: u8,
    action: Action,
)
    requires
        call_ensures(Bus::endpoint_set_stalled, (bus, state, address, stalled, control), action),
        address.raw as int % 128 < 4,
    ensures
        ({
            let index = address.raw as int % 128;
            let direction = if address.raw >= 128 {
                Direction::In
            } else {
                Direction::Out
            };
            action matches Action::Write8 { offset, value } && offset == 0x22 + 4 * index && {
                &&& fields::same_elsewhere(value, control, direction)
                &&& fields::data(value, direction) == (if stalled {
                    fields::data(control, direction)
                } else {
                    0
                })
                &&& fields::answer(value, direction) == (if stalled {
                    3u8
                } else if address.raw < 128 && !state@.output.complete.contains(index) {
                    0
                } else {
                    2
                })
            }
        }),
{
    address_is_number_and_direction(address);
    let index = address.spec_index();
    cleared_halt_starts_over(
        control,
        address.spec_direction(),
        stalled,
        state@.output.complete.contains(index),
    );
}

/// Enabling and disabling an endpoint write its own control register, as the
/// address names it, wake its task, and do nothing else to the controller.
pub proof fn enabling_writes_one_endpoint(
    bus: &mut Bus,
    state: &mut UsbState,
    address: EndpointAddress,
    enabled: bool,
    control: u8,
    actions: Vec<Action>,
)
    requires
        call_ensures(Bus::endpoint_set_enabled, (bus, state, address, enabled, control), actions),
        address.raw as int % 128 < 4,
    ensures
        ({
            let index = address.raw as int % 128;
            let direction = if address.raw >= 128 {
                Direction::In
            } else {
                Direction::Out
            };
            let task = if address.raw >= 128 {
                Wake::In(index as usize)
            } else {
                Wake::Out(index as usize)
            };
            &&& actions@.len() == 2
            &&& actions@[0] matches Action::Write8 { offset, value } && offset == 0x22 + 4 * index
                && {
                &&& fields::same_elsewhere(value, control, direction)
                &&& enabled ==> fields::data(value, direction) == 0
                &&& !enabled ==> fields::data(value, direction) == fields::data(control, direction)
                &&& fields::answer(value, direction) == (if !enabled {
                    3u8
                } else if address.raw >= 128 {
                    2
                } else {
                    0
                })
            }
            &&& actions@[1] == Action::Wake(task)
            &&& final(state)@.side(direction).enabled.contains(index) == enabled
            &&& *final(bus) == *old(bus)
        }),
{
    address_is_number_and_direction(address);
    enabled_endpoint_starts_over(control, address.spec_direction(), enabled);
}

/// The bus task is told the pending event with the lowest number, which is taken
/// alone.
pub proof fn bus_task_takes_lowest_event(
    bus: &mut Bus,
    state: &mut UsbState,
    event: Option<Event>,
    number: int,
)
    requires
        call_ensures(Bus::poll, (bus, state), event),
        0 <= number < 4,
        old(state)@.bus_events.contains(number),
        forall|lower: int| 0 <= lower < number ==> !old(state)@.bus_events.contains(lower),
    ensures
        event == Some(
            if number == 0 {
                Event::Reset
            } else if number == 1 {
                Event::Suspend
            } else if number == 2 {
                Event::Resume
            } else {
                Event::PowerDetected
            },
        ),
        final(state)@.bus_events == old(state)@.bus_events.remove(number),
{
    events_have_their_numbers(old(state)@.bus_events);
    let events = old(state)@.bus_events;
    assert(number > 0 ==> !events.contains(0));
    assert(number > 1 ==> !events.contains(1));
    assert(number > 2 ==> !events.contains(2));
}

/// Disconnecting clears the pull-up of the pin configuration and keeps every other
/// pin.
pub proof fn disconnecting_clears_one_pin(pins: u16, action: Action)
    requires
        call_ensures(crate::usb::force_disconnect, (pins,), action),
    ensures
        action matches Action::WritePins { pins: after } && after / 64 % 2 == 0 && after / 128
            == pins / 128 && after % 64 == pins % 64,
{
    usb_pins_are_two_bits(pins);
}

/// The control task gets the SETUP packet as it came, once; endpoint zero defers
/// both directions from DATA1 on until a stage is armed, and the transfer belongs
/// to the present reset generation.
pub proof fn setup_packet_is_taken_once(
    pipe: &mut ControlPipe,
    state: &mut UsbState,
    result: Option<([u8; 8], Action)>,
)
    requires
        call_ensures(ControlPipe::setup, (pipe, state), result),
    ensures
        result is Some <==> old(state)@.setup_pending,
        !final(state)@.setup_pending,
        result matches Some((packet, action)) ==> {
            &&& packet@ == old(state)@.setup_packet
            &&& final(pipe).reset_generation == old(state)@.reset_generation
            &&& action matches Action::Write8 { offset, value } && offset == 0x22
                && fields::rx_data(value) == 1 && fields::tx_data(value) == 1
                && fields::rx_answer(value) == 2 && fields::tx_answer(value) == 2
                && fields::automatic(value) == 0
        },
        final(pipe).max_packet_size == old(pipe).max_packet_size,
        final(state)@.input == old(state)@.input,
        final(state)@.output == old(state)@.output,
        final(state)@.bus_events == old(state)@.bus_events,
        final(state)@.reset_generation == old(state)@.reset_generation,
{
    lemma_fixed_bytes();
}

/// Rejecting a request stalls both directions of endpoint zero.
pub proof fn rejected_request_stalls(pipe: ControlPipe, action: Action)
    requires
        call_ensures(ControlPipe::reject, (&pipe,), action),
    ensures
        action matches Action::Write8 { offset, value } && offset == 0x22 && fields::rx_answer(
            value,
        ) == 3 && fields::tx_answer(value) == 3,
{
    lemma_fixed_bytes();
}

/// Starting the driver hands the allocation to the bus and the packet size to the
/// control pipe, leaves the bus disabled, and reports power and nothing else.
pub proof fn started_driver_reports_power(
    driver: Driver,
    size: u16,
    state: &mut UsbState,
    result: (Bus, ControlPipe),
)
    requires
        call_ensures(Driver::start, (driver, size, state), result),
    ensures
        result.0.allocated_in == driver.allocated_in,
        result.0.allocated_out == driver.allocated_out,
        !result.0.enabled,
        result.1.max_packet_size == size,
        result.1.reset_generation == old(state)@.reset_generation,
        forall|number: int| #[trigger]
            final(state)@.bus_events.contains(number) <==> number == 3,
        final(state)@.input == old(state)@.input,
        final(state)@.output == old(state)@.output,
        same_setup(final(state)@, old(state)@),
        final(state)@.reset_generation == old(state)@.reset_generation,
{
}

/// Which endpoint number a request without an address gets, of those that are
/// free: an interrupt IN endpoint the highest of 3, 2 and 1, any other the lowest
/// of 1, 2 and 3.
pub proof fn free_number_is_given_in_order(
    allocated: Set<int>,
    direction: Direction,
    ep_type: EndpointType,
    index: int,
)
    requires
        driver::is_choice(allocated, direction, ep_type, None, index),
    ensures
        1 <= index <= 3,
        !allocated.contains(index),
        direction == Direction::In && ep_type == EndpointType::Interrupt ==> {
            &&& !allocated.contains(3) ==> index == 3
            &&& allocated.contains(3) && !allocated.contains(2) ==> index == 2
            &&& allocated.contains(3) && allocated.contains(2) ==> index == 1
        },
        direction == Direction::Out || ep_type != EndpointType::Interrupt ==> {
            &&& !allocated.contains(1) ==> index == 1
            &&& allocated.contains(1) && !allocated.contains(2) ==> index == 2
            &&& allocated.contains(1) && allocated.contains(2) ==> index == 3
        },
{
    assert(driver::is_free(allocated, 1) == !allocated.contains(1));
    assert(driver::is_free(allocated, 2) == !allocated.contains(2));
    assert(driver::is_free(allocated, 3) == !allocated.contains(3));
}

/// When an endpoint is given: every type but isochronous, with packets of 1 to 64
/// bytes, at the requested address if its direction is right and its number is 1,
/// 2 or 3 and free, and without a request if any of the three is free. A request
/// is given the number that it asks for.
pub proof fn allocation_rules(
    allocated: Set<int>,
    direction: Direction,
    ep_type: EndpointType,
    requested: Option<EndpointAddress>,
    size: u16,
    index: int,
)
    ensures
        ({
            let given = driver::can_allocate(allocated, direction, ep_type, requested, size);
            &&& ep_type == EndpointType::Isochronous ==> !given
            &&& size == 0 || size > 64 ==> !given
            &&& ep_type != EndpointType::Isochronous && 1 <= size <= 64 ==> match requested {
                Some(address) => {
                    &&& given <==> (address.raw >= 128) == (direction == Direction::In) && 1
                        <= address.raw as int % 128 <= 3 && !allocated.contains(
                        address.raw as int % 128,
                    )
                    &&& driver::is_choice(allocated, direction, ep_type, requested, index)
                        ==> index == address.raw as int % 128
                },
                None => given <==> !(allocated.contains(1) && allocated.contains(2)
                    && allocated.contains(3)),
            }
        }),
{
    if let Some(address) = requested {
        address_is_number_and_direction(address);
    }
    assert(driver::is_free(allocated, 1) == !allocated.contains(1));
    assert(driver::is_free(allocated, 2) == !allocated.contains(2));
    assert(driver::is_free(allocated, 3) == !allocated.contains(3));
}

/// IN endpoints: one is given for every type but isochronous, with packets of 1 to
/// 64 bytes, at the address that is asked for if that is an IN address whose number is
/// 1, 2 or 3 and free, or at any free number of these. It is what was asked for, and
/// its number is taken from then on; OUT numbers are kept. An interrupt endpoint gets
/// the highest free number, any other the lowest.
pub proof fn given_in_endpoint_is_what_was_asked(
    driver: &mut Driver,
    ep_type: EndpointType,
    requested: Option<EndpointAddress>,
    size: u16,
    interval: u8,
    state: &UsbState,
    result: Result<Endpoint, EndpointAllocError>,
)
    requires
        call_ensures(
            Driver::alloc_endpoint_in,
            (driver, ep_type, requested, size, interval, state),
            result,
        ),
    ensures
        result is Ok <==> ep_type != EndpointType::Isochronous && 1 <= size <= 64 && match requested {
            Some(address) => address.raw >= 128 && 1 <= address.raw as int % 128 <= 3
                && !bits::set8(old(driver).allocated_in).contains(address.raw as int % 128),
            None => !(bits::set8(old(driver).allocated_in).contains(1) && bits::set8(
                old(driver).allocated_in,
            ).contains(2) && bits::set8(old(driver).allocated_in).contains(3)),
        },
        result matches Ok(endpoint) ==> {
            let taken = bits::set8(old(driver).allocated_in);
            let index = endpoint.info.addr.raw as int % 128;
            &&& endpoint.info.addr.raw >= 128
            &&& 1 <= index <= 3
            &&& !bits::set8(old(driver).allocated_in).contains(index)
            &&& endpoint.info.ep_type == ep_type
            &&& endpoint.info.max_packet_size == size
            &&& endpoint.info.interval_ms == interval
            &&& endpoint.reset_generation == state@.reset_generation
            &&& requested matches Some(address) ==> endpoint.info.addr == address
            &&& bits::set8(final(driver).allocated_in) == bits::set8(old(driver).allocated_in).insert(
                index,
            )
            &&& requested is None && ep_type == EndpointType::Interrupt ==> {
                &&& !taken.contains(3) ==> index == 3
                &&& taken.contains(3) && !taken.contains(2) ==> index == 2
                &&& taken.contains(3) && taken.contains(2) ==> index == 1
            }
            &&& requested is None && ep_type != EndpointType::Interrupt ==> {
                &&& !taken.contains(1) ==> index == 1
                &&& taken.contains(1) && !taken.contains(2) ==> index == 2
                &&& taken.contains(1) && taken.contains(2) ==> index == 3
            }
            &&& final(driver).allocated_out == old(driver).allocated_out
        },
        result is Err ==> *final(driver) == *old(driver),
{
    let allocated = bits::set8(old(driver).allocated_in);
    allocation_rules(allocated, Direction::In, ep_type, requested, size, 0);
    if let Ok(endpoint) = result {
        address_is_number_and_direction(endpoint.info.addr);
        allocation_rules(
            allocated,
            Direction::In,
            ep_type,
            requested,
            size,
            endpoint.info.addr.spec_index(),
        );
        if let Some(address) = requested {
            address_is_number_and_direction(address);
            lemma_same_address(endpoint.info.addr.raw, address.raw);
        } else {
            free_number_is_given_in_order(
                allocated,
                Direction::In,
                ep_type,
                endpoint.info.addr.spec_index(),
            );
        }
    }
}

/// OUT endpoints: one is given for every type but isochronous, with packets of 1 to
/// 64 bytes, at the address that is asked for if that is an OUT address whose number is
/// 1, 2 or 3 and free, or at any free number of these. It is what was asked for, and
/// its number, the lowest free one, is taken from then on; IN numbers are kept.
pub proof fn given_out_endpoint_is_what_was_asked(
    driver: &mut Driver,
    ep_type: EndpointType,
    requested: Option<EndpointAddress>,
    size: u16,
    interval: u8,
    state: &UsbState,
    result: Result<Endpoint, EndpointAllocError>,
)
    requires
        call_ensures(
            Driver::alloc_endpoint_out,
            (driver, ep_type, requested, size, interval, state),
            result,
        ),
    ensures
        result is Ok <==> ep_type != EndpointType::Isochronous && 1 <= size <= 64 && match requested {
            Some(address) => address.raw < 128 && 1 <= address.raw as int % 128 <= 3
                && !bits::set8(old(driver).allocated_out).contains(address.raw as int % 128),
            None => !(bits::set8(old(driver).allocated_out).contains(1) && bits::set8(
                old(driver).allocated_out,
            ).contains(2) && bits::set8(old(driver).allocated_out).contains(3)),
        },
        result matches Ok(endpoint) ==> {
            let taken = bits::set8(old(driver).allocated_out);
            let index = endpoint.info.addr.raw as int % 128;
            &&& endpoint.info.addr.raw < 128
            &&& 1 <= index <= 3
            &&& !bits::set8(old(driver).allocated_out).contains(index)
            &&& endpoint.info.ep_type == ep_type
            &&& endpoint.info.max_packet_size == size
            &&& endpoint.info.interval_ms == interval
            &&& endpoint.reset_generation == state@.reset_generation
            &&& requested matches Some(address) ==> endpoint.info.addr == address
            &&& bits::set8(final(driver).allocated_out) == bits::set8(old(driver).allocated_out).insert(
                index,
            )
            &&& requested is None ==> {
                &&& !taken.contains(1) ==> index == 1
                &&& taken.contains(1) && !taken.contains(2) ==> index == 2
                &&& taken.contains(1) && taken.contains(2) ==> index == 3
            }
            &&& final(driver).allocated_in == old(driver).allocated_in
        },
        result is Err ==> *final(driver) == *old(driver),
{
    let allocated = bits::set8(old(driver).allocated_out);
    allocation_rules(allocated, Direction::Out, ep_type, requested, size, 0);
    if let Ok(endpoint) = result {
        address_is_number_and_direction(endpoint.info.addr);
        allocation_rules(
            allocated,
            Direction::Out,
            ep_type,
            requested,
            size,
            endpoint.info.addr.spec_index(),
        );
        if let Some(address) = requested {
            address_is_number_and_direction(address);
            lemma_same_address(endpoint.info.addr.raw, address.raw);
        } else {
            free_number_is_given_in_order(
                allocated,
                Direction::Out,
                ep_type,
                endpoint.info.addr.spec_index(),
            );
        }
    }
}

proof fn lemma_same_address(a: u8, b: u8)
    by (bit_vector)
    ensures
        a % 128 == b % 128 && (a >= 128) == (b >= 128) ==> a == b,
{
}

/// Starting the endpoints over leaves each as it is enabled: OUT accepts or stalls,
/// IN defers or stalls, from DATA0 and with automatic toggles, and no packet is
/// announced. The device answers at address zero, and endpoint zero accepts OUT and
/// defers IN.
pub proof fn started_over_endpoints(enabled_in: Set<int>, enabled_out: Set<int>, index: int)
    requires
        1 <= index < 4,
    ensures
        ({
            let actions = state::reset_actions(enabled_in, enabled_out);
            &&& actions.len() == 8
            &&& leaves(actions, 0x03, 0)
            &&& leaves(actions, 0x22, 0x02)
            &&& leaves(actions, 0x20 + 4 * index, 0)
            &&& exists|value: u8| #[trigger]
                leaves(actions, 0x22 + 4 * index, value) && fields::rx_answer(value) == (
                if enabled_out.contains(index) {
                    0u8
                } else {
                    3
                }) && fields::tx_answer(value) == (if enabled_in.contains(index) {
                    2u8
                } else {
                    3
                }) && fields::rx_data(value) == 0 && fields::tx_data(value) == 0
                    && fields::automatic(value) == 1
        }),
{
    reveal_with_fuel(state::reset_endpoint_actions, 5);
    let actions = state::reset_actions(enabled_in, enabled_out);
    let value = state::reset_control(enabled_in.contains(index), enabled_out.contains(index));
    reset_control_shows_enabled(enabled_in.contains(index), enabled_out.contains(index));
    assert(actions.len() == 8);
    assert(last_write(actions, 0, 0x03, 0));
    assert(last_write(actions, 1, 0x22, 0x02));
    assert(last_write(actions, 2 * index, 0x22 + 4 * index, value));
    assert(last_write(actions, 2 * index + 1, 0x20 + 4 * index, 0));
    assert(leaves(actions, 0x22 + 4 * index, value));
}

/// The state before the first event: nothing allocated, enabled, received or
/// pending.
pub proof fn first_state_is_empty(state: UsbState, index: int)
    requires
        call_ensures(UsbState::new, (), state),
    ensures
        !state@.input.allocated.contains(index),
        !state@.output.allocated.contains(index),
        !state@.input.enabled.contains(index),
        !state@.output.enabled.contains(index),
        !state@.input.complete.contains(index),
        !state@.output.complete.contains(index),
        !state@.bus_events.contains(index),
        !state@.setup_pending,
        state@.wf(),
{
}

/// The bank of an endpoint, byte by byte of its place: endpoint zero has a bank of
/// its own; the OUT bank of endpoint 1, 2 or 3 starts at byte 0, 128 or 256, and so
/// does its IN bank unless the OUT direction is allocated too, which moves it up by
/// 64.
pub proof fn bank_has_its_place(index: usize, direction: Direction, allocated_out: u8, bank: Bank)
    requires
        call_ensures(bank::endpoint_bank, (index, direction, allocated_out), bank),
        index < 4,
    ensures
        index == 0 <==> bank == Bank::Control,
        bank matches Bank::Endpoint { offset } ==> offset == 128 * (index - 1) + (if direction
            == Direction::In && allocated_out as int / bits::weight(index as int) % 2 == 1 {
            64int
        } else {
            0
        }),
{
    bits::bit_numbers_are_binary_digits(allocated_out, 0, index as int);
}

/// Whether the transfer of a ticket still belongs to the endpoint: the same number
/// of resets and of changes, and enabled.
pub open spec fn belongs(ticket: TransferTicket, model: UsbModel) -> bool {
    let side = match ticket.direction {
        Direction::In => model.input,
        Direction::Out => model.output,
    };
    &&& model.reset_generation == ticket.reset_generation
    &&& side.enables[ticket.index as int] == ticket.enable_generation
    &&& side.enabled.contains(ticket.index as int)
}

/// A request notes the endpoint, the direction of the transfer, and how often the
/// endpoint and the bus were started over.
pub proof fn ticket_notes_the_lifecycle(
    endpoint: Endpoint,
    state: &UsbState,
    memory: &mut PacketMemory,
    data: &[u8],
    write: Result<TransferTicket, EndpointError>,
    read: Result<TransferTicket, EndpointError>,
)
    requires
        call_ensures(Endpoint::begin_write, (&endpoint, state, memory, data), write),
        call_ensures(Endpoint::begin_read, (&endpoint, state), read),
        endpoint.wf(),
    ensures
        write matches Ok(ticket) ==> ticket.index == endpoint.info.addr.raw as int % 128
            && ticket.direction == Direction::In && belongs(ticket, state@),
        read matches Ok(ticket) ==> ticket.index == endpoint.info.addr.raw as int % 128
            && ticket.direction == Direction::Out && belongs(ticket, state@),
        write is Ok <==> data@.len() <= endpoint.info.max_packet_size
            && state@.input.enabled.contains(endpoint.info.addr.raw as int % 128),
        read is Ok <==> state@.output.enabled.contains(endpoint.info.addr.raw as int % 128),
{
    address_is_number_and_direction(endpoint.info.addr);
}

/// A write that waits goes on by the state alone: it fails once the endpoint was
/// started over, succeeds once its packet was counted, which it then forgets, and
/// otherwise waits.
pub proof fn waiting_write_goes_on(
    endpoint: Endpoint,
    guard: TransferGuard,
    state: &mut UsbState,
    memory: &mut PacketMemory,
    data: &[u8],
    control: u8,
    result: (WriteStage, Vec<Action>),
)
    requires
        call_ensures(
            Endpoint::write,
            (&endpoint, WriteStage::Wait(guard), state, memory, data, control),
            result,
        ),
        guard.ticket.direction == Direction::In,
        guard.ticket.index < 4,
    ensures
        ({
            let model = old(state)@;
            let index = guard.ticket.index as int;
            let taken = model.input.completions[index] != guard.completion_generation;
            &&& result.1@.len() == 0
            &&& !belongs(guard.ticket, model) ==> result.0 == WriteStage::Release(
                guard,
                EndpointError::Disabled,
            )
            &&& belongs(guard.ticket, model) && taken ==> result.0 == WriteStage::Done(Ok(()))
                && !final(state)@.input.complete.contains(index)
            &&& belongs(guard.ticket, model) && !taken ==> result.0 == WriteStage::Wait(guard)
            &&& same_packets_but(final(state)@.input, model.input, index)
            &&& final(state)@.input.completions == model.input.completions
            &&& final(state)@.output == model.output
            &&& same_setup(final(state)@, model)
            &&& same_configuration(final(state)@, model)
            &&& final(memory)@ == old(memory)@
        }),
{
}

/// A read that waits goes on by the state alone: it fails once the endpoint was
/// started over, goes on with the length of the packet once that was counted, and
/// otherwise waits.
pub proof fn waiting_read_goes_on(
    endpoint: Endpoint,
    guard: TransferGuard,
    state: &mut UsbState,
    memory: &PacketMemory,
    output: &mut [u8],
    control: u8,
    result: (ReadStage, Vec<Action>),
)
    requires
        call_ensures(
            Endpoint::read,
            (&endpoint, ReadStage::Wait(guard), state, memory, output, control),
            result,
        ),
        guard.ticket.direction == Direction::Out,
        guard.ticket.index < 4,
    ensures
        ({
            let model = old(state)@;
            let index = guard.ticket.index as int;
            let received = model.output.completions[index] != guard.completion_generation;
            &&& result.1@.len() == 0
            &&& !belongs(guard.ticket, model) ==> result.0 == ReadStage::Release(
                guard,
                EndpointError::Disabled,
            )
            &&& belongs(guard.ticket, model) && received ==> result.0 == ReadStage::Copy(
                model.out_lengths[index] as usize,
            ) && !final(state)@.output.complete.contains(index)
            &&& belongs(guard.ticket, model) && !received ==> result.0 == ReadStage::Wait(guard)
            &&& same_packets_but(final(state)@.output, model.output, index)
            &&& final(state)@.output.completions == model.output.completions
            &&& final(state)@.input == model.input
            &&& same_setup(final(state)@, model)
            &&& same_configuration(final(state)@, model)
            &&& final(output)@ == old(output)@
        }),
{
}

/// A read begins with the packet that was received before, if there is one, and
/// otherwise waits for the next that is counted; a write waits for its own. Either
/// fails if the endpoint was started over since the request.
pub proof fn begun_transfer_notes_the_count(
    endpoint: Endpoint,
    ticket: TransferTicket,
    model: UsbModel,
    length: int,
    capacity: int,
    control: u8,
)
    requires
        ticket.index < 4,
    ensures
        ({
            let index = ticket.index as int;
            let write = endpoint.write_next(WriteStage::Arm(ticket), model, length);
            let read = endpoint.read_next(ReadStage::Start(ticket), model, capacity, control);
            &&& !belongs(ticket, model) ==> write == WriteStage::Done(Err(EndpointError::Disabled))
                && read == ReadStage::Done(Err(EndpointError::Disabled))
                && endpoint.write_actions(WriteStage::Arm(ticket), model, length, control).len()
                == 0 && endpoint.read_actions(ReadStage::Start(ticket), model, control).len() == 0
            &&& belongs(ticket, model) && ticket.direction == Direction::In ==> (
            write matches WriteStage::Wait(guard) && guard.ticket == ticket && guard.armed
                && guard.completion_generation == model.input.completions[index])
            &&& belongs(ticket, model) && ticket.direction == Direction::Out
                && model.output.complete.contains(index) ==> read == ReadStage::Confirm(
                ticket,
                model.out_lengths[index] as usize,
            ) && endpoint.read_actions(ReadStage::Start(ticket), model, control).len() == 0
            &&& belongs(ticket, model) && ticket.direction == Direction::Out
                && !model.output.complete.contains(index) ==> (read matches ReadStage::Wait(guard)
                && guard.ticket == ticket && guard.armed && guard.completion_generation
                == model.output.completions[index])
        }),
{
}

/// A packet from before is given only if the endpoint was not started over
/// meanwhile.
pub proof fn confirmed_packet_belongs(
    endpoint: Endpoint,
    ticket: TransferTicket,
    length: usize,
    model: UsbModel,
    capacity: int,
    control: u8,
)
    ensures
        endpoint.read_next(ReadStage::Confirm(ticket, length), model, capacity, control) == (
        if belongs(ticket, model) {
            ReadStage::Copy(length)
        } else {
            ReadStage::Done(Err(EndpointError::Disabled))
        }),
{
}

/// Dropping a transfer writes the endpoint's control register exactly while the
/// transfer is outstanding: armed, not started over, and its packet not counted.
/// Then an open endpoint defers the host, and all else is kept.
pub proof fn dropped_transfer_takes_its_bank_back(
    guard: TransferGuard,
    state: &UsbState,
    control: u8,
    result: Option<u8>,
)
    requires
        call_ensures(TransferGuard::release, (&guard, state, control), result),
        guard.ticket.index < 4,
    ensures
        ({
            let direction = guard.ticket.direction;
            let side = match direction {
                Direction::In => state@.input,
                Direction::Out => state@.output,
            };
            &&& result is Some <==> guard.armed && belongs(guard.ticket, state@)
                && side.completions[guard.ticket.index as int] == guard.completion_generation
            &&& result matches Some(value) ==> fields::same_elsewhere(value, control, direction)
                && fields::data(value, direction) == fields::data(control, direction)
                && fields::answer(value, direction) == (if fields::answer(control, direction)
                == 0 {
                2
            } else {
                fields::answer(control, direction)
            })
        }),
{
    release_closes_only_open_endpoint(control, guard.ticket.direction);
}

/// Dropping a stage writes the control register of endpoint zero exactly while the
/// stage is outstanding: armed, of the present reset generation, without a newer
/// SETUP packet, and without a packet in its direction. Then an open direction
/// defers the host, and all else is kept.
pub proof fn dropped_stage_closes_endpoint_zero(
    guard: ControlTransferGuard,
    state: &UsbState,
    control: u8,
    result: Option<u8>,
)
    requires
        call_ensures(ControlTransferGuard::release, (&guard, state, control), result),
    ensures
        ({
            let direction = guard.direction;
            let side = match direction {
                Direction::In => state@.input,
                Direction::Out => state@.output,
            };
            &&& result is Some <==> guard.armed && state@.reset_generation
                == guard.reset_generation && !state@.setup_pending && !side.complete.contains(0)
            &&& result matches Some(value) ==> fields::same_elsewhere(value, control, direction)
                && fields::data(value, direction) == fields::data(control, direction)
                && fields::answer(value, direction) == (if fields::answer(control, direction)
                == 0 {
                2
            } else {
                fields::answer(control, direction)
            })
        }),
{
    release_closes_only_open_endpoint(control, guard.direction);
}

/// A transfer that was reset or overtaken by a SETUP packet goes no further: a
/// request is refused without touching the controller, a stage that waits or is to
/// be finished fails, and the pipe follows the present reset generation. A packet
/// of a control read that is not the last one needs no finishing.
pub proof fn stale_stage_goes_no_further(
    pipe: ControlPipe,
    guard: ControlTransferGuard,
    model: UsbModel,
    length: int,
    taken: usize,
    last: bool,
    address: Option<u8>,
    control: u8,
    dev_ad: u8,
    direction: Direction,
)
    requires
        pipe.reset_generation == guard.reset_generation,
        model.reset_generation != pipe.reset_generation || model.setup_pending,
        0 <= length <= pipe.max_packet_size,
        taken <= length,
    ensures
        ({
            let finish = ControlStage::<()>::Finish(guard, taken);
            let failed = ControlStage::<()>::Release(guard, EndpointError::Disabled);
            let refused = ControlStage::<()>::Done(Err(EndpointError::Disabled));
            &&& pipe.data_in_next(ControlStage::Request, model, length, last) == refused
            &&& pipe.status_next(ControlStage::Request, model) == refused
            &&& pipe.data_out_next(ControlStage::Request, model, length) == ControlStage::<
                usize,
            >::Done(Err(EndpointError::Disabled))
            &&& pipe.data_in_actions(ControlStage::Request, model, length, last, control).len()
                == 0
            &&& pipe.status_step_actions(
                ControlStage::Request,
                model,
                address,
                control,
                dev_ad,
            ).len() == 0
            &&& pipe.data_out_actions(ControlStage::Request, model, control).len() == 0
            &&& pipe.wait_next::<()>(guard, model, direction) == failed
            &&& pipe.wait_model(model, direction) == model
            &&& pipe.wait_pipe(model).reset_generation == model.reset_generation
            &&& pipe.wait_pipe(model).max_packet_size == pipe.max_packet_size
            &&& pipe.status_next(finish, model) == failed
            &&& pipe.status_step_actions(finish, model, address, control, dev_ad).len() == 0
            &&& pipe.data_in_next(finish, model, length, last) == (if last {
                failed
            } else {
                ControlStage::<()>::Done(Ok(()))
            })
            &&& pipe.data_in_actions(finish, model, length, last, control).len() == 0
            &&& pipe.data_out_next(
                ControlStage::<usize>::Finish(guard, taken),
                model,
                length,
            ) == ControlStage::<usize>::Release(guard, EndpointError::Disabled)
        }),
{
}

/// The packet of a control read is the data, byte for byte from the start of the
/// bank of endpoint zero; the rest of the packet memory is kept.
pub proof fn offered_control_packet_is_the_data(
    pipe: &mut ControlPipe,
    state: &mut UsbState,
    memory: &mut PacketMemory,
    data: &[u8],
    last: bool,
    control: u8,
    result: (ControlStage<()>, Vec<Action>),
    i: int,
)
    requires
        call_ensures(
            ControlPipe::data_in,
            (pipe, ControlStage::Request, state, memory, data, last, control),
            result,
        ),
        old(memory)@.wf(),
        old(pipe).wf(),
        data@.len() <= 64,
        0 <= i < 64,
    ensures
        final(memory)@.endpoints == old(memory)@.endpoints,
        final(memory)@.control[i] == (if result.0 is Wait && i < data@.len() {
            data@[i]
        } else {
            old(memory)@.control[i]
        }),
{
}

/// A control write gives what endpoint zero received, byte for byte, and keeps the
/// rest of the caller's buffer; a stage that does not succeed keeps all of it.
pub proof fn received_control_packet_is_given(
    pipe: &mut ControlPipe,
    guard: ControlTransferGuard,
    length: usize,
    state: &mut UsbState,
    memory: &PacketMemory,
    output: &mut [u8],
    control: u8,
    result: (ControlStage<usize>, Vec<Action>),
    i: int,
)
    requires
        call_ensures(
            ControlPipe::data_out,
            (pipe, ControlStage::Finish(guard, length), state, memory, output, control),
            result,
        ),
        memory@.wf(),
        length <= 64,
        0 <= i < old(output)@.len(),
    ensures
        final(output)@.len() == old(output)@.len(),
        final(output)@[i] == (if result.0 is Done && i < length {
            memory@.control[i]
        } else {
            old(output)@[i]
        }),
{
}

/// The SETUP packet is the first eight bytes of the bank of endpoint zero.
pub proof fn setup_packet_starts_the_bank(memory: &PacketMemory, packet: [u8; 8], i: int)
    requires
        call_ensures(PacketMemory::setup_packet, (memory,), packet),
        0 <= i < 8,
    ensures
        packet@[i] == memory@.control[i],
{
}

/// An endpoint is ready exactly when the host has enabled it in its own direction;
/// it then follows the present reset generation.
pub proof fn ready_endpoint_is_enabled(endpoint: &mut Endpoint, state: &UsbState, enabled: bool)
    requires
        call_ensures(Endpoint::wait_enabled, (endpoint, state), enabled),
        old(endpoint).wf(),
    ensures
        ({
            let raw = old(endpoint).info.addr.raw;
            let side = if raw >= 128 {
                state@.input
            } else {
                state@.output
            };
            &&& enabled <==> side.enabled.contains(raw as int % 128)
            &&& final(endpoint).info == old(endpoint).info
            &&& final(endpoint).reset_generation == (if enabled {
                state@.reset_generation
            } else {
                old(endpoint).reset_generation
            })
        }),
{
    address_is_number_and_direction(old(endpoint).info.addr);
}

/// The bus knows whether it is enabled, and keeps its allocation.
pub proof fn bus_knows_whether_it_is_enabled(
    bus: &mut Bus,
    other: &mut Bus,
    state: &mut UsbState,
    later: &mut UsbState,
    chip: Chip,
    dma: DmaLayout,
    pins: u16,
    enabling: Vec<Action>,
    disabling: Vec<Action>,
)
    requires
        call_ensures(Bus::enable, (bus, state, chip, dma, pins), enabling),
        call_ensures(Bus::disable, (other, later), disabling),
    ensures
        final(bus).enabled,
        final(bus).allocated_in == old(bus).allocated_in,
        final(bus).allocated_out == old(bus).allocated_out,
        final(state)@.input.allocated == bits::set8(old(bus).allocated_in),
        final(state)@.output.allocated == bits::set8(old(bus).allocated_out),
        !final(other).enabled,
        final(other).allocated_in == old(other).allocated_in,
        final(other).allocated_out == old(other).allocated_out,
{
}

} // verus!
