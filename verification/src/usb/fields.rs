//! The fields of an endpoint's control register, as the controller reads them.
//!
//! From the top: the receive toggle, the transmit toggle, a reserved bit, the
//! automatic toggle, the answer to OUT packets in two bits, and the answer to IN
//! packets in two bits. An answer is 0 to accept or send, 2 to defer the host
//! and 3 to stall.

use vstd::prelude::*;

use crate::usb::address::Direction;
use crate::usb::control;
use crate::usb::interrupt;
use crate::usb::register;

verus! {

/// The data packet that the receiver expects: 1 for DATA1.
pub open spec fn rx_data(control: u8) -> u8 {
    control / 128
}

/// The data packet that the transmitter sends: 1 for DATA1.
pub open spec fn tx_data(control: u8) -> u8 {
    control / 64 % 2
}

/// The reserved bit.
pub open spec fn reserved(control: u8) -> u8 {
    control / 32 % 2
}

/// Whether the controller advances the toggles by itself: 1 if it does.
pub open spec fn automatic(control: u8) -> u8 {
    control / 16 % 2
}

/// The answer to OUT packets.
pub open spec fn rx_answer(control: u8) -> u8 {
    control / 4 % 4
}

/// The answer to IN packets.
pub open spec fn tx_answer(control: u8) -> u8 {
    control % 4
}

/// The answer to packets in `direction`.
pub open spec fn answer(control: u8, direction: Direction) -> u8 {
    match direction {
        Direction::In => tx_answer(control),
        Direction::Out => rx_answer(control),
    }
}

/// The data packet that is next in `direction`.
pub open spec fn data(control: u8, direction: Direction) -> u8 {
    match direction {
        Direction::In => tx_data(control),
        Direction::Out => rx_data(control),
    }
}

/// The direction against `direction`.
pub open spec fn opposite(direction: Direction) -> Direction {
    match direction {
        Direction::In => Direction::Out,
        Direction::Out => Direction::In,
    }
}

/// Whether two control bytes agree in everything but the fields of `direction`.
pub open spec fn same_elsewhere(a: u8, b: u8, direction: Direction) -> bool {
    &&& data(a, opposite(direction)) == data(b, opposite(direction))
    &&& answer(a, opposite(direction)) == answer(b, opposite(direction))
    &&& automatic(a) == automatic(b)
    &&& reserved(a) == reserved(b)
}

/// The fields say all: control bytes with the same fields are the same.
pub proof fn fields_make_the_byte(a: u8, b: u8)
    requires
        same_elsewhere(a, b, Direction::In),
        data(a, Direction::In) == data(b, Direction::In),
        answer(a, Direction::In) == answer(b, Direction::In),
    ensures
        a == b,
{
    lemma_byte_of_fields(a, b);
}

proof fn lemma_byte_of_fields(a: u8, b: u8)
    by (bit_vector)
    ensures
        rx_data(a) == rx_data(b) && tx_data(a) == tx_data(b) && reserved(a) == reserved(b)
            && automatic(a) == automatic(b) && rx_answer(a) == rx_answer(b) && tx_answer(a)
            == tx_answer(b) ==> a == b,
{
}

proof fn lemma_rx_fields(c: u8, d: u8, v: u8)
    by (bit_vector)
    requires
        v == 0x00u8 || v == 0x08u8 || v == 0x0cu8,
        d == (c & !0x0cu8) | v,
    ensures
        rx_answer(d) == v / 4,
        tx_answer(d) == tx_answer(c),
        rx_data(d) == rx_data(c),
        tx_data(d) == tx_data(c),
        reserved(d) == reserved(c),
        automatic(d) == automatic(c),
{
}

proof fn lemma_tx_fields(c: u8, d: u8, v: u8)
    by (bit_vector)
    requires
        v == 0x00u8 || v == 0x02u8 || v == 0x03u8,
        d == (c & !0x03u8) | v,
    ensures
        tx_answer(d) == v,
        rx_answer(d) == rx_answer(c),
        rx_data(d) == rx_data(c),
        tx_data(d) == tx_data(c),
        reserved(d) == reserved(c),
        automatic(d) == automatic(c),
{
}

/// Replacing the answer of a direction replaces that answer alone.
pub proof fn response_is_one_field(control: u8, direction: Direction, code: u8)
    requires
        code == 0 || code == 2 || code == 3,
    ensures
        ({
            let value = match direction {
                Direction::In => code,
                Direction::Out => (code * 4) as u8,
            };
            let result = register::with_response(control, direction, value);
            &&& answer(result, direction) == code
            &&& data(result, direction) == data(control, direction)
            &&& same_elsewhere(result, control, direction)
        }),
{
    match direction {
        Direction::In => lemma_tx_fields(control, register::with_tx(control, code), code),
        Direction::Out => {
            let value = (code * 4) as u8;
            lemma_rx_fields(control, register::with_rx(control, value), value);
        },
    }
}

/// The codes that the register is written with mean accept, defer and stall.
pub proof fn response_codes(direction: Direction, control: u8)
    ensures
        answer(register::with_response(control, direction, register::ack(direction)), direction)
            == 0,
        answer(register::with_response(control, direction, register::nak(direction)), direction)
            == 2,
        answer(register::with_response(control, direction, register::stall(direction)), direction)
            == 3,
        register::response(control, direction) == register::ack(direction) <==> answer(
            control,
            direction,
        ) == 0,
        register::response(control, direction) == register::nak(direction) <==> answer(
            control,
            direction,
        ) == 2,
        register::response(control, direction) == register::stall(direction) <==> answer(
            control,
            direction,
        ) == 3,
{
    response_is_one_field(control, direction, 0);
    response_is_one_field(control, direction, 2);
    response_is_one_field(control, direction, 3);
    lemma_codes(control);
}

proof fn lemma_codes(c: u8)
    by (bit_vector)
    ensures
        c & 0x03u8 == 0x00u8 <==> tx_answer(c) == 0,
        c & 0x03u8 == 0x02u8 <==> tx_answer(c) == 2,
        c & 0x03u8 == 0x03u8 <==> tx_answer(c) == 3,
        c & 0x0cu8 == 0x00u8 <==> rx_answer(c) == 0,
        c & 0x0cu8 == 0x08u8 <==> rx_answer(c) == 2,
        c & 0x0cu8 == 0x0cu8 <==> rx_answer(c) == 3,
{
}

proof fn lemma_toggle_fields(c: u8, t: u8, r: u8)
    by (bit_vector)
    requires
        t == c & !0x40u8 || t == c ^ 0x40u8,
        r == c & !0x80u8 || r == c ^ 0x80u8,
    ensures
        t == c & !0x40u8 ==> tx_data(t) == 0,
        t == c ^ 0x40u8 ==> tx_data(t) != tx_data(c),
        rx_data(t) == rx_data(c),
        rx_answer(t) == rx_answer(c),
        tx_answer(t) == tx_answer(c),
        reserved(t) == reserved(c),
        automatic(t) == automatic(c),
        r == c & !0x80u8 ==> rx_data(r) == 0,
        r == c ^ 0x80u8 ==> rx_data(r) != rx_data(c),
        tx_data(r) == tx_data(c),
        rx_answer(r) == rx_answer(c),
        tx_answer(r) == tx_answer(c),
        reserved(r) == reserved(c),
        automatic(r) == automatic(c),
{
}

/// Clearing the toggle of a direction makes DATA0 next there, and changes nothing
/// else.
pub proof fn cleared_toggle_is_data0(control: u8, direction: Direction)
    ensures
        ({
            let result = control & !register::toggle(direction);
            &&& data(result, direction) == 0
            &&& answer(result, direction) == answer(control, direction)
            &&& same_elsewhere(result, control, direction)
        }),
{
    lemma_toggle_fields(control, control & !0x40u8, control & !0x80u8);
}

/// A packet that endpoint zero received flips the packet that it expects next,
/// and changes nothing else: a control write of any number of packets alternates.
pub proof fn control_write_alternates(control: u8)
    ensures
        ({
            let result = interrupt::control_after_out(0, control);
            &&& rx_data(result) != rx_data(control)
            &&& rx_answer(result) == rx_answer(control)
            &&& same_elsewhere(result, control, Direction::Out)
        }),
{
    lemma_toggle_fields(control, control & !0x40u8, control ^ 0x80u8);
}

/// A packet that another endpoint received makes it defer the next one, and
/// changes nothing else.
pub proof fn received_packet_defers_the_next(index: int, control: u8)
    requires
        index != 0,
    ensures
        ({
            let result = interrupt::control_after_out(index, control);
            &&& rx_answer(result) == 2
            &&& rx_data(result) == rx_data(control)
            &&& same_elsewhere(result, control, Direction::Out)
        }),
{
    response_is_one_field(control, Direction::Out, 2);
}

/// A packet that the host took makes the endpoint defer the host. On endpoint
/// zero it also flips the packet that is sent next; elsewhere the controller does
/// that. Nothing else changes.
pub proof fn taken_packet_closes_the_endpoint(index: int, control: u8)
    ensures
        ({
            let result = interrupt::control_after_in(index, control);
            &&& tx_answer(result) == 2
            &&& tx_data(result) != tx_data(control) <==> index == 0
            &&& same_elsewhere(result, control, Direction::In)
        }),
{
    lemma_toggle_fields(control, control ^ 0x40u8, control & !0x80u8);
    if index == 0 {
        response_is_one_field(control ^ 0x40u8, Direction::In, 2);
    } else {
        response_is_one_field(control, Direction::In, 2);
    }
}

proof fn lemma_in_fields(c: u8, d: u8, r: u8)
    by (bit_vector)
    requires
        r == 0x00u8 || r == 0x08u8,
        d == (c & !(0x0cu8 | 0x03u8)) | r | 0x00u8,
    ensures
        tx_answer(d) == 0,
        rx_answer(d) == r / 4,
        rx_data(d) == rx_data(c),
        tx_data(d) == tx_data(c),
        reserved(d) == reserved(c),
        automatic(d) == automatic(c),
{
}

/// Offering a packet on endpoint zero sends it, answers OUT packets as asked, and
/// keeps both toggles.
pub proof fn offered_control_packet_keeps_toggles(control: u8, code: u8)
    requires
        code == 0 || code == 2,
    ensures
        ({
            let result = control::in_control(control, (code * 4) as u8);
            &&& tx_answer(result) == 0
            &&& rx_answer(result) == code
            &&& rx_data(result) == rx_data(control)
            &&& tx_data(result) == tx_data(control)
            &&& automatic(result) == automatic(control)
            &&& reserved(result) == reserved(control)
        }),
{
    let rx = (code * 4) as u8;
    lemma_in_fields(control, control::in_control(control, rx), rx);
}

/// The device address register keeps its top bit and takes all seven bits of the
/// address.
pub proof fn address_is_installed_whole(dev_ad: u8, address: u8)
    ensures
        control::address_byte(dev_ad, address) % 128 == address % 128,
        control::address_byte(dev_ad, address) / 128 == dev_ad / 128,
        address < 128 ==> control::address_byte(dev_ad, address) % 128 == address,
{
    lemma_address_fields(dev_ad, address, control::address_byte(dev_ad, address));
}

proof fn lemma_address_fields(d: u8, a: u8, v: u8)
    by (bit_vector)
    requires
        v == (d & 0x80u8) | (a & 0x7fu8),
    ensures
        v % 128 == a % 128,
        v / 128 == d / 128,
{
}

} // verus!
