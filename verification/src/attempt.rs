//! The two attempts of a poll that may sleep.
//!
//! A task that finds nothing to do registers to be woken and looks once more
//! before it sleeps, so that what came between the two is not missed.

use vstd::prelude::*;

verus! {

/// Where a poll stands.
#[derive(Clone, Copy, Debug, PartialEq, Eq, Structural)]
pub enum Attempt {
    /// Before the task was registered to be woken.
    First,
    /// After the task was registered.
    Second,
}

} // verus!
