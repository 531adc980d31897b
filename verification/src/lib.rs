//! Verified logic of the CH58x drivers.
//!
//! Every driver is a set of steps on plain values: a step takes the driver's
//! state and the registers that it depends on, and gives the next state and the
//! actions to perform on the hardware. Contracts say which state and which
//! actions these are; the modules named `laws`, and the public proof functions
//! elsewhere, say what holds of any course of steps.

pub mod attempt;
pub mod bits;
pub mod chip;
pub mod executor;
pub mod gpio;
pub mod interrupt;
pub mod pfic;
pub mod time;
pub mod uart;
pub mod usb;
pub mod words;
