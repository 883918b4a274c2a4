//! Memory-mapped peripherals.

pub mod aplic;
pub mod hierarchy;
