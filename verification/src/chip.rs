//! The supported chips.

use vstd::prelude::*;

verus! {

/// The chip that the drivers run on.
#[derive(Clone, Copy, Debug, PartialEq, Eq, Structural)]
pub enum Chip {
    /// CH581, CH582 and CH583.
    Ch582,
    /// CH584 and CH585.
    Ch585,
}

} // verus!
