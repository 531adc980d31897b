//! Requests to the interrupt controller.

use vstd::prelude::*;

verus! {

/// The interrupt priorities that the drivers use; a lower level preempts a
/// higher one.
#[derive(Clone, Copy, Debug, PartialEq, Eq, Structural)]
pub enum Priority {
    P1,
    P14,
    P15,
}

impl Priority {
    /// The level as the controller's priority byte holds it: in the high nibble.
    pub open spec fn spec_bits(self) -> u8 {
        match self {
            Priority::P1 => 0x10,
            Priority::P14 => 0xe0,
            Priority::P15 => 0xf0,
        }
    }

    /// The byte to write to the controller's priority register.
    pub fn bits(self) -> (bits: u8)
        ensures
            bits == self.spec_bits(),
    {
        priority_byte(self)
    }
}

/// `u8::from` on `qingke::interrupt::Priority`.
///
/// Claimed: the byte of level 1, 14 or 15 holds the level in its high nibble and
/// zero in its low nibble.
#[verifier::external_body]
fn priority_byte(priority: Priority) -> (bits: u8)
    ensures
        bits == priority.spec_bits(),
{
    let priority = match priority {
        Priority::P1 => qingke::interrupt::Priority::P1,
        Priority::P14 => qingke::interrupt::Priority::P14,
        Priority::P15 => qingke::interrupt::Priority::P15,
    };
    u8::from(priority)
}

/// One request to the interrupt controller.
#[derive(Clone, Copy, Debug, PartialEq, Eq, Structural)]
pub enum PficAction {
    /// Set the priority byte of an interrupt.
    SetPriority { irq: u8, bits: u8 },
    /// Let the interrupt be taken.
    Enable { irq: u8 },
    /// Keep the interrupt from being taken.
    Disable { irq: u8 },
    /// Forget a latched request of the interrupt.
    Unpend { irq: u8 },
}

/// A priority byte is sixteen times the level.
pub proof fn priority_byte_is_level(priority: Priority, bits: u8)
    requires
        call_ensures(Priority::bits, (priority,), bits),
    ensures
        bits == 16 * (match priority {
            Priority::P1 => 1int,
            Priority::P14 => 14,
            Priority::P15 => 15,
        }),
{
}

} // verus!
