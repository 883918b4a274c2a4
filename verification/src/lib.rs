//! Models of the RISC-V interrupt controllers and of the values held by the
//! control and status registers around them.
//!
//! The controllers are plain structures over a buffer of 32-bit words laid
//! out as the hardware lays its registers out. Every operation carries a
//! contract over the abstract state of the controller.

pub mod bits;
pub mod error;
pub mod fields;
pub mod peripheral;
pub mod plic;
pub mod register;
pub mod surface;
