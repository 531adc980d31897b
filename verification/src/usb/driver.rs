//! Endpoint allocation.

use vstd::prelude::*;

use crate::bits;
use crate::interrupt::typelevel;
use crate::interrupt::typelevel::Binding;
use crate::usb::address::{Direction, EndpointAddress, ENDPOINT_COUNT};
use crate::usb::bus::Bus;
use crate::usb::control::ControlPipe;
use crate::usb::endpoint::Endpoint;
use crate::usb::interrupt;
use crate::usb::interrupt::InterruptHandler;
use crate::usb::register::EP_PACKET_SIZE;
use crate::usb::state::{UsbModel, UsbState};
use crate::usb::types::{EndpointAllocError, EndpointInfo, EndpointType};

verus! {

/// Full-speed USB device driver, before the bus is started.
#[derive(Debug)]
pub struct Driver {
    pub allocated_in: u8,
    pub allocated_out: u8,
}

/// Whether endpoint `index` is one that can still be allocated.
pub open spec fn is_free(allocated: Set<int>, index: int) -> bool {
    1 <= index < ENDPOINT_COUNT && !allocated.contains(index)
}

/// Whether an allocation succeeds: the type is supported, the packet fits into a
/// bank, and the requested address, or any address, is free.
pub open spec fn can_allocate(
    allocated: Set<int>,
    direction: Direction,
    ep_type: EndpointType,
    requested: Option<EndpointAddress>,
    max_packet_size: u16,
) -> bool {
    &&& ep_type != EndpointType::Isochronous
    &&& 1 <= max_packet_size <= EP_PACKET_SIZE
    &&& match requested {
        Some(address) => address.spec_direction() == direction && is_free(
            allocated,
            address.spec_index(),
        ),
        None => exists|index: int| is_free(allocated, index),
    }
}

/// Whether `index` is the endpoint number that a successful allocation gives.
/// Without a request, an interrupt IN endpoint takes the highest free number,
/// which leaves the low ones to be shared by both directions, and any other
/// takes the lowest.
pub open spec fn is_choice(
    allocated: Set<int>,
    direction: Direction,
    ep_type: EndpointType,
    requested: Option<EndpointAddress>,
    index: int,
) -> bool {
    &&& is_free(allocated, index)
    &&& match requested {
        Some(address) => index == address.spec_index(),
        None => if direction == Direction::In && ep_type == EndpointType::Interrupt {
            forall|other: int| #[trigger] is_free(allocated, other) ==> other <= index
        } else {
            forall|other: int| #[trigger] is_free(allocated, other) ==> index <= other
        },
    }
}

fn lowest_free(allocated: u8) -> (result: Option<usize>)
    ensures
        result matches Some(index) ==> {
            &&& is_free(bits::set8(allocated), index as int)
            &&& forall|other: int| #[trigger]
                is_free(bits::set8(allocated), other) ==> index <= other
        },
        result is None ==> forall|other: int| !#[trigger] is_free(bits::set8(allocated), other),
{
    let mut index: usize = 1;
    while index < ENDPOINT_COUNT
        invariant
            1 <= index <= ENDPOINT_COUNT,
            forall|other: int| #[trigger] is_free(bits::set8(allocated), other) ==> index <= other,
        decreases ENDPOINT_COUNT - index,
    {
        if !bits::has8(allocated, index) {
            return Some(index);
        }
        index = index + 1;
    }
    None
}

fn highest_free(allocated: u8) -> (result: Option<usize>)
    ensures
        result matches Some(index) ==> {
            &&& is_free(bits::set8(allocated), index as int)
            &&& forall|other: int| #[trigger]
                is_free(bits::set8(allocated), other) ==> other <= index
        },
        result is None ==> forall|other: int| !#[trigger] is_free(bits::set8(allocated), other),
{
    let mut index: usize = ENDPOINT_COUNT;
    while index > 1
        invariant
            1 <= index <= ENDPOINT_COUNT,
            forall|other: int| #[trigger] is_free(bits::set8(allocated), other) ==> other < index,
        decreases index,
    {
        index = index - 1;
        if !bits::has8(allocated, index) {
            return Some(index);
        }
    }
    None
}

impl Driver {
    /// Creates the driver with no endpoint allocated. The binding shows that the
    /// controller's interrupt calls the handler.
    pub fn new<B: Binding<typelevel::USB, InterruptHandler>>(_irq: B) -> (driver: Driver)
        ensures
            driver.allocated_in == 0,
            driver.allocated_out == 0,
    {
        Driver { allocated_in: 0, allocated_out: 0 }
    }

    /// Allocates an endpoint of one direction; `allocated` are the numbers that
    /// this direction has given away.
    pub fn allocate(
        allocated: &mut u8,
        direction: Direction,
        ep_type: EndpointType,
        requested: Option<EndpointAddress>,
        max_packet_size: u16,
        interval_ms: u8,
        state: &UsbState,
    ) -> (result: Result<Endpoint, EndpointAllocError>)
        ensures
            result is Ok <==> can_allocate(
                bits::set8(*old(allocated)),
                direction,
                ep_type,
                requested,
                max_packet_size,
            ),
            result matches Ok(endpoint) ==> {
                &&& endpoint.wf()
                &&& endpoint.info.addr.spec_direction() == direction
                &&& is_choice(
                    bits::set8(*old(allocated)),
                    direction,
                    ep_type,
                    requested,
                    endpoint.info.addr.spec_index(),
                )
                &&& endpoint.info.ep_type == ep_type
                &&& endpoint.info.max_packet_size == max_packet_size
                &&& endpoint.info.interval_ms == interval_ms
                &&& endpoint.reset_generation == state@.reset_generation
                &&& bits::set8(*final(allocated)) == bits::set8(*old(allocated)).insert(
                    endpoint.info.addr.spec_index(),
                )
            },
            result is Err ==> *final(allocated) == *old(allocated),
    {
        if ep_type == EndpointType::Isochronous || max_packet_size == 0 || max_packet_size
            > EP_PACKET_SIZE as u16 {
            return Err(EndpointAllocError);
        }
        let index: usize = match requested {
            Some(address) => {
                if address.direction() != direction {
                    return Err(EndpointAllocError);
                }
                address.index()
            },
            None => {
                let free = if direction == Direction::In && ep_type == EndpointType::Interrupt {
                    highest_free(*allocated)
                } else {
                    lowest_free(*allocated)
                };
                match free {
                    Some(index) => index,
                    None => {
                        return Err(EndpointAllocError);
                    },
                }
            },
        };
        if index == 0 || index >= ENDPOINT_COUNT || bits::has8(*allocated, index) {
            return Err(EndpointAllocError);
        }
        assert(is_free(bits::set8(*allocated), index as int));
        *allocated = bits::insert8(*allocated, index);
        Ok(
            Endpoint {
                info: EndpointInfo {
                    addr: EndpointAddress::from_parts(index, direction),
                    ep_type,
                    max_packet_size,
                    interval_ms,
                },
                reset_generation: state.reset_generation,
            },
        )
    }

    /// Allocates an OUT endpoint.
    pub fn alloc_endpoint_out(
        &mut self,
        ep_type: EndpointType,
        ep_addr: Option<EndpointAddress>,
        max_packet_size: u16,
        interval_ms: u8,
        state: &UsbState,
    ) -> (result: Result<Endpoint, EndpointAllocError>)
        ensures
            result is Ok <==> can_allocate(
                bits::set8(old(self).allocated_out),
                Direction::Out,
                ep_type,
                ep_addr,
                max_packet_size,
            ),
            result matches Ok(endpoint) ==> {
                &&& endpoint.wf()
                &&& endpoint.info.addr.spec_direction() == Direction::Out
                &&& is_choice(
                    bits::set8(old(self).allocated_out),
                    Direction::Out,
                    ep_type,
                    ep_addr,
                    endpoint.info.addr.spec_index(),
                )
                &&& endpoint.info.ep_type == ep_type
                &&& endpoint.info.max_packet_size == max_packet_size
                &&& endpoint.info.interval_ms == interval_ms
                &&& endpoint.reset_generation == state@.reset_generation
                &&& bits::set8(final(self).allocated_out) == bits::set8(
                    old(self).allocated_out,
                ).insert(endpoint.info.addr.spec_index())
            },
            result is Err ==> final(self).allocated_out == old(self).allocated_out,
            final(self).allocated_in == old(self).allocated_in,
    {
        Driver::allocate(
            &mut self.allocated_out,
            Direction::Out,
            ep_type,
            ep_addr,
            max_packet_size,
            interval_ms,
            state,
        )
    }

    /// Allocates an IN endpoint.
    pub fn alloc_endpoint_in(
        &mut self,
        ep_type: EndpointType,
        ep_addr: Option<EndpointAddress>,
        max_packet_size: u16,
        interval_ms: u8,
        state: &UsbState,
    ) -> (result: Result<Endpoint, EndpointAllocError>)
        ensures
            result is Ok <==> can_allocate(
                bits::set8(old(self).allocated_in),
                Direction::In,
                ep_type,
                ep_addr,
                max_packet_size,
            ),
            result matches Ok(endpoint) ==> {
                &&& endpoint.wf()
                &&& endpoint.info.addr.spec_direction() == Direction::In
                &&& is_choice(
                    bits::set8(old(self).allocated_in),
                    Direction::In,
                    ep_type,
                    ep_addr,
                    endpoint.info.addr.spec_index(),
                )
                &&& endpoint.info.ep_type == ep_type
                &&& endpoint.info.max_packet_size == max_packet_size
                &&& endpoint.info.interval_ms == interval_ms
                &&& endpoint.reset_generation == state@.reset_generation
                &&& bits::set8(final(self).allocated_in) == bits::set8(
                    old(self).allocated_in,
                ).insert(endpoint.info.addr.spec_index())
            },
            result is Err ==> final(self).allocated_in == old(self).allocated_in,
            final(self).allocated_out == old(self).allocated_out,
    {
        Driver::allocate(
            &mut self.allocated_in,
            Direction::In,
            ep_type,
            ep_addr,
            max_packet_size,
            interval_ms,
            state,
        )
    }

    /// Starts the bus. The chip has no detection of bus power, so the only
    /// pending event is that power was detected.
    pub fn start(self, control_max_packet_size: u16, state: &mut UsbState) -> (result: (
        Bus,
        ControlPipe,
    ))
        requires
            control_max_packet_size == 8 || control_max_packet_size == 16
                || control_max_packet_size == 32 || control_max_packet_size == 64,
        ensures
            result.0 == (Bus {
                allocated_in: self.allocated_in,
                allocated_out: self.allocated_out,
                enabled: false,
            }),
            result.1 == (ControlPipe {
                max_packet_size: control_max_packet_size as usize,
                reset_generation: old(state)@.reset_generation,
            }),
            final(state)@ == (UsbModel {
                bus_events: Set::empty().insert(interrupt::EVENT_POWER as int),
                ..old(state)@
            }),
    {
        state.bus_events = bits::single8(interrupt::EVENT_POWER);
        (
            Bus {
                allocated_in: self.allocated_in,
                allocated_out: self.allocated_out,
                enabled: false,
            },
            ControlPipe {
                max_packet_size: control_max_packet_size as usize,
                reset_generation: state.reset_generation,
            },
        )
    }
}

} // verus!
