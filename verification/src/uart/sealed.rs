//! Keeps the set of UART peripherals closed.

use vstd::prelude::*;

verus! {

/// Marks the UART peripherals of the supported chips.
pub trait Sealed {

}

} // verus!
