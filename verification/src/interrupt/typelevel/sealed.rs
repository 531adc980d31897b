//! Keeps the set of interrupts closed.

use vstd::prelude::*;

verus! {

/// Marks the interrupts of the supported chips.
pub trait Interrupt {

}

} // verus!
