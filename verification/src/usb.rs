//! USB device driver for the CH58x USBFS controller.
//!
//! Endpoints are backed by fixed 64-byte DMA banks. The interrupt handler, the
//! bus, the control pipe and the endpoints are steps on one shared state; each
//! step takes the registers it depends on and gives the actions to perform on
//! the controller.

use vstd::prelude::*;

use crate::usb::register::Action;

pub mod address;
pub mod bank;
pub mod bus;
pub mod chip;
pub mod control;
pub mod driver;
pub mod effects;
pub mod endpoint;
pub mod fields;
pub mod interrupt;
pub mod laws;
pub mod register;
pub mod stage;
pub mod state;
pub mod steps;
pub mod transfer;
pub mod types;

pub use crate::usb::bus::Bus;
pub use crate::usb::control::ControlPipe;
pub use crate::usb::driver::Driver;
pub use crate::usb::endpoint::Endpoint;
pub use crate::usb::interrupt::InterruptHandler;

verus! {

/// Electrically disconnects the device by taking its D+ pull-up away. `pins` is
/// the present pin configuration. Enabling the bus restores the pull-up.
pub fn force_disconnect(pins: u16) -> (action: Action)
    ensures
        action == (Action::WritePins { pins: pins & !chip::USB_DP_PULLUP }),
{
    Action::WritePins { pins: chip::disable_usb_pullup(pins) }
}

} // verus!
