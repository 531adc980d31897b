//! Registers of the USBFS controller and the actions that the driver asks for.

use vstd::prelude::*;

use crate::pfic::PficAction;
use crate::usb::address::Direction;

verus! {

/// Byte register offsets from the controller base.
pub const CTRL: usize = 0x00;

pub const UDEV_CTRL: usize = 0x01;

pub const INT_EN: usize = 0x02;

pub const DEV_AD: usize = 0x03;

pub const MIS_ST: usize = 0x05;

pub const INT_FG: usize = 0x06;

pub const INT_ST: usize = 0x07;

pub const RX_LEN: usize = 0x08;

/// First of the three endpoint mode registers.
pub const ENDPOINT_MODES: usize = 0x0c;

/// Interrupt flags and enables.
pub const UIF_BUS_RESET: u8 = 0x01;

pub const UIF_TRANSFER: u8 = 0x02;

pub const UIF_SUSPEND: u8 = 0x04;

/// Fields of the transfer status register.
pub const UIS_SETUP_ACT: u8 = 0x80;

pub const UIS_TOG_OK: u8 = 0x40;

pub const TOKEN_MASK: u8 = 0x30;

pub const TOKEN_OUT: u8 = 0x00;

pub const TOKEN_IN: u8 = 0x20;

pub const TOKEN_SETUP: u8 = 0x30;

pub const ENDPOINT_MASK: u8 = 0x0f;

/// The bit of the miscellaneous status register that is set while suspended.
pub const MIS_SUSPEND: u8 = 0x04;

/// Fields of an endpoint control register.
pub const UEP_R_TOG: u8 = 0x80;

pub const UEP_T_TOG: u8 = 0x40;

pub const UEP_AUTO_TOG: u8 = 0x10;

pub const UEP_R_RES_MASK: u8 = 0x0c;

pub const UEP_R_RES_ACK: u8 = 0x00;

pub const UEP_R_RES_NAK: u8 = 0x08;

pub const UEP_R_RES_STALL: u8 = 0x0c;

pub const UEP_T_RES_MASK: u8 = 0x03;

pub const UEP_T_RES_ACK: u8 = 0x00;

pub const UEP_T_RES_NAK: u8 = 0x02;

pub const UEP_T_RES_STALL: u8 = 0x03;

/// Bytes in one DMA bank, and the largest packet.
pub const EP_PACKET_SIZE: usize = 64;

/// The interrupt number of the controller.
pub const USB_IRQ: u8 = 22;

/// A task to wake.
#[derive(Clone, Copy, Debug, PartialEq, Eq, Structural)]
pub enum Wake {
    /// The task waiting for bus events.
    Bus,
    /// The task running the control pipe.
    Control,
    /// The task using the IN direction of an endpoint number.
    In(usize),
    /// The task using the OUT direction of an endpoint number.
    Out(usize),
}

/// The value of a DMA address register, in the width that the chip has.
#[derive(Clone, Copy, Debug, PartialEq, Eq, Structural)]
pub enum DmaWord {
    Half(u16),
    Word(u32),
}

/// One effect on the hardware or on the scheduler. A list of actions is
/// performed from first to last.
#[derive(Clone, Copy, Debug, PartialEq, Eq, Structural)]
pub enum Action {
    /// Write a byte register.
    Write8 { offset: usize, value: u8 },
    /// Write the DMA address register of an endpoint number.
    WriteDma { index: usize, word: DmaWord },
    /// Write the 16-bit pin configuration register.
    WritePins { pins: u16 },
    /// Ask the interrupt controller.
    Pfic(PficAction),
    /// Wake a task.
    Wake(Wake),
}

/// Offset of the control register of endpoint `index`.
pub open spec fn spec_endpoint_control(index: int) -> int {
    0x22 + index * 4
}

/// Offset of the transmit length register of endpoint `index`.
pub open spec fn spec_endpoint_tx_length(index: int) -> int {
    0x20 + index * 4
}

/// The action that writes the control register of endpoint `index`.
pub open spec fn write_control(index: int, value: u8) -> Action {
    Action::Write8 { offset: spec_endpoint_control(index) as usize, value }
}

/// The action that writes the transmit length register of endpoint `index`.
pub open spec fn write_tx_length(index: int, value: u8) -> Action {
    Action::Write8 { offset: spec_endpoint_tx_length(index) as usize, value }
}

/// The task that waits on endpoint `index` in `direction`.
pub open spec fn spec_endpoint_waker(direction: Direction, index: int) -> Wake {
    match direction {
        Direction::In => Wake::In(index as usize),
        Direction::Out => Wake::Out(index as usize),
    }
}

/// Offset of the control register of endpoint `index`.
pub fn endpoint_control(index: usize) -> (offset: usize)
    requires
        index < 128,
    ensures
        offset == spec_endpoint_control(index as int),
{
    0x22 + index * 4
}

/// Offset of the transmit length register of endpoint `index`.
pub fn endpoint_tx_length(index: usize) -> (offset: usize)
    requires
        index < 128,
    ensures
        offset == spec_endpoint_tx_length(index as int),
{
    0x20 + index * 4
}

/// The task that waits on endpoint `index` in `direction`.
pub fn endpoint_waker(direction: Direction, index: usize) -> (wake: Wake)
    ensures
        wake == spec_endpoint_waker(direction, index as int),
{
    match direction {
        Direction::In => Wake::In(index),
        Direction::Out => Wake::Out(index),
    }
}

/// The receive response field of a control byte.
pub open spec fn rx_response(control: u8) -> u8 {
    control & UEP_R_RES_MASK
}

/// The transmit response field of a control byte.
pub open spec fn tx_response(control: u8) -> u8 {
    control & UEP_T_RES_MASK
}

/// `control` with its receive response replaced.
pub open spec fn with_rx(control: u8, response: u8) -> u8 {
    (control & !UEP_R_RES_MASK) | response
}

/// `control` with its transmit response replaced.
pub open spec fn with_tx(control: u8, response: u8) -> u8 {
    (control & !UEP_T_RES_MASK) | response
}

/// The response field of `direction`.
pub open spec fn response(control: u8, direction: Direction) -> u8 {
    match direction {
        Direction::In => tx_response(control),
        Direction::Out => rx_response(control),
    }
}

/// `control` with the response of `direction` replaced.
pub open spec fn with_response(control: u8, direction: Direction, value: u8) -> u8 {
    match direction {
        Direction::In => with_tx(control, value),
        Direction::Out => with_rx(control, value),
    }
}

/// The response code of `direction` that accepts a packet.
pub open spec fn ack(direction: Direction) -> u8 {
    match direction {
        Direction::In => UEP_T_RES_ACK,
        Direction::Out => UEP_R_RES_ACK,
    }
}

/// The response code of `direction` that defers the host.
pub open spec fn nak(direction: Direction) -> u8 {
    match direction {
        Direction::In => UEP_T_RES_NAK,
        Direction::Out => UEP_R_RES_NAK,
    }
}

/// The response code of `direction` that reports a halt.
pub open spec fn stall(direction: Direction) -> u8 {
    match direction {
        Direction::In => UEP_T_RES_STALL,
        Direction::Out => UEP_R_RES_STALL,
    }
}

/// The data toggle bit of `direction`.
pub open spec fn toggle(direction: Direction) -> u8 {
    match direction {
        Direction::In => UEP_T_TOG,
        Direction::Out => UEP_R_TOG,
    }
}

/// `control` with its receive response replaced.
pub fn set_rx(control: u8, response: u8) -> (result: u8)
    ensures
        result == with_rx(control, response),
{
    (control & !UEP_R_RES_MASK) | response
}

/// `control` with its transmit response replaced.
pub fn set_tx(control: u8, response: u8) -> (result: u8)
    ensures
        result == with_tx(control, response),
{
    (control & !UEP_T_RES_MASK) | response
}

/// A response that was written is read back, and every other bit of the
/// register, the other direction's response among them, is kept.
pub proof fn lemma_with_response(control: u8, direction: Direction, value: u8)
    requires
        value == ack(direction) || value == nak(direction) || value == stall(direction),
    ensures
        response(with_response(control, direction, value), direction) == value,
        direction == Direction::In ==> {
            with_response(control, direction, value) & !UEP_T_RES_MASK == control & !UEP_T_RES_MASK
        },
        direction == Direction::Out ==> {
            with_response(control, direction, value) & !UEP_R_RES_MASK == control & !UEP_R_RES_MASK
        },
        rx_response(with_tx(control, UEP_T_RES_NAK)) == rx_response(control),
{
    lemma_response_bits(control, value);
}

/// The control bytes of endpoint zero, field by field, as numbers.
pub proof fn lemma_constants()
    by (bit_vector)
    ensures
        0x80u8 | 0x40u8 | 0x08u8 | 0x02u8 == 0xcau8,
        0x80u8 | 0x40u8 | 0x00u8 | 0x02u8 == 0xc2u8,
        0x00u8 | 0x02u8 == 0x02u8,
        0x0cu8 | 0x03u8 == 0x0fu8,
        0x10u8 | 0x00u8 | 0x02u8 == 0x12u8,
        0x10u8 | 0x00u8 | 0x03u8 == 0x13u8,
        0x10u8 | 0x0cu8 | 0x02u8 == 0x1eu8,
        0x10u8 | 0x0cu8 | 0x03u8 == 0x1fu8,
        0x20u8 | 0x08u8 | 0x01u8 == 0x29u8,
        0x80u8 | 0x01u8 == 0x81u8,
        0x04u8 | 0x02u8 | 0x01u8 == 0x07u8,
{
}

proof fn lemma_response_bits(c: u8, v: u8)
    by (bit_vector)
    ensures
        v & !0x03u8 == 0 ==> ((c & !0x03u8) | v) & 0x03u8 == v,
        v & !0x03u8 == 0 ==> ((c & !0x03u8) | v) & !0x03u8 == c & !0x03u8,
        v & !0x0cu8 == 0 ==> ((c & !0x0cu8) | v) & 0x0cu8 == v,
        v & !0x0cu8 == 0 ==> ((c & !0x0cu8) | v) & !0x0cu8 == c & !0x0cu8,
        ((c & !0x03u8) | 0x02u8) & 0x0cu8 == c & 0x0cu8,
        0u8 & !0x03u8 == 0,
        2u8 & !0x03u8 == 0,
        3u8 & !0x03u8 == 0,
        0u8 & !0x0cu8 == 0,
        8u8 & !0x0cu8 == 0,
        0x0cu8 & !0x0cu8 == 0,
{
}

} // verus!
