//! Values that the driver exchanges with the USB stack.

use vstd::prelude::*;

use crate::usb::address::EndpointAddress;

verus! {

/// Transfer type of an endpoint.
#[derive(Clone, Copy, Debug, PartialEq, Eq, Structural)]
pub enum EndpointType {
    Control,
    Isochronous,
    Bulk,
    Interrupt,
}

/// What the descriptors say of an endpoint.
#[derive(Clone, Copy, Debug, PartialEq, Eq, Structural)]
pub struct EndpointInfo {
    pub addr: EndpointAddress,
    pub ep_type: EndpointType,
    pub max_packet_size: u16,
    pub interval_ms: u8,
}

/// Why a transfer failed.
#[derive(Clone, Copy, Debug, PartialEq, Eq, Structural)]
pub enum EndpointError {
    /// The packet does not fit: into the endpoint when writing, into the
    /// caller's buffer when reading.
    BufferOverflow,
    /// The endpoint is disabled, or was disabled while the transfer ran.
    Disabled,
}

/// No endpoint with the requested properties is left.
#[derive(Clone, Copy, Debug, PartialEq, Eq, Structural)]
pub struct EndpointAllocError;

/// The bus is not in a state that allows the request.
#[derive(Clone, Copy, Debug, PartialEq, Eq, Structural)]
pub struct Unsupported;

/// A change on the bus.
#[derive(Clone, Copy, Debug, PartialEq, Eq, Structural)]
pub enum Event {
    Reset,
    Suspend,
    Resume,
    PowerDetected,
}

} // verus!
