//! Endpoint addresses and transfer directions.

use vstd::prelude::*;

verus! {

/// Number of endpoint numbers with a DMA bank: endpoint zero and three others.
pub const ENDPOINT_COUNT: usize = 4;

/// The bit of an endpoint address that marks the IN direction.
pub const ADDRESS_IN: u8 = 0x80;

/// Direction of USB traffic, named from the host's side.
#[derive(Clone, Copy, Debug, PartialEq, Eq, Structural)]
pub enum Direction {
    /// Host to device.
    Out,
    /// Device to host.
    In,
}

/// An endpoint address: a seven-bit endpoint number and a direction bit.
#[derive(Clone, Copy, Debug, PartialEq, Eq, Structural)]
pub struct EndpointAddress {
    pub raw: u8,
}

/// `embassy_usb_driver::EndpointAddress::from_parts`, as the address byte.
///
/// Claimed: the result is the low byte of `index`, with the IN bit set on top
/// of it exactly when the direction is IN.
#[verifier::external_body]
fn address_from_parts(index: usize, direction: Direction) -> (raw: u8)
    ensures
        raw == EndpointAddress::parts_byte(index as u8, direction),
{
    let direction = match direction {
        Direction::Out => embassy_usb_driver::Direction::Out,
        Direction::In => embassy_usb_driver::Direction::In,
    };
    u8::from(embassy_usb_driver::EndpointAddress::from_parts(index, direction))
}

/// `embassy_usb_driver::EndpointAddress::index` of the address with byte `raw`.
///
/// Claimed: the result is the address byte without its IN bit.
#[verifier::external_body]
fn address_index(raw: u8) -> (index: usize)
    ensures
        index == raw & !ADDRESS_IN,
{
    embassy_usb_driver::EndpointAddress::from(raw).index()
}

/// `embassy_usb_driver::EndpointAddress::direction` of the address with byte `raw`.
///
/// Claimed: the result is IN exactly when the IN bit of the byte is set.
#[verifier::external_body]
fn address_direction(raw: u8) -> (direction: Direction)
    ensures
        direction == (if raw & ADDRESS_IN != 0 {
            Direction::In
        } else {
            Direction::Out
        }),
{
    match embassy_usb_driver::EndpointAddress::from(raw).direction() {
        embassy_usb_driver::Direction::Out => Direction::Out,
        embassy_usb_driver::Direction::In => Direction::In,
    }
}

impl EndpointAddress {
    /// The address byte of an endpoint number and a direction.
    pub open spec fn parts_byte(index: u8, direction: Direction) -> u8 {
        index | (if direction == Direction::In {
            ADDRESS_IN
        } else {
            0u8
        })
    }

    /// The endpoint number.
    pub open spec fn spec_index(self) -> int {
        (self.raw & !ADDRESS_IN) as int
    }

    /// The transfer direction.
    pub open spec fn spec_direction(self) -> Direction {
        if self.raw & ADDRESS_IN != 0 {
            Direction::In
        } else {
            Direction::Out
        }
    }

    /// Builds the address of endpoint `index` in `direction`.
    pub fn from_parts(index: usize, direction: Direction) -> (address: EndpointAddress)
        requires
            index < 128,
        ensures
            address.spec_index() == index,
            address.spec_direction() == direction,
    {
        let raw = address_from_parts(index, direction);
        proof {
            lemma_parts(index as u8);
        }
        EndpointAddress { raw }
    }

    /// The endpoint number of this address.
    pub fn index(&self) -> (index: usize)
        ensures
            index == self.spec_index(),
            index < 128,
    {
        proof {
            lemma_index_small(self.raw);
        }
        address_index(self.raw)
    }

    /// The direction of this address.
    pub fn direction(&self) -> (direction: Direction)
        ensures
            direction == self.spec_direction(),
    {
        address_direction(self.raw)
    }
}

proof fn lemma_index_small(raw: u8)
    by (bit_vector)
    ensures
        raw & !0x80u8 < 128,
{
}

proof fn lemma_parts(index: u8)
    by (bit_vector)
    requires
        index < 128,
    ensures
        (index | 0x80u8) & !0x80u8 == index,
        (index | 0u8) & !0x80u8 == index,
        (index | 0x80u8) & 0x80u8 != 0,
        (index | 0u8) & 0x80u8 == 0,
{
}

} // verus!
