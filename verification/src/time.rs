//! SysTick time driver.

pub mod ch582;
pub mod ch585;
pub mod driver;
pub mod laws;
pub mod wakeups;
