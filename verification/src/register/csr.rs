//! What to do to a control and status register.
//!
//! The functions of this crate that change a register do not touch it: they
//! say which access brings the change about, and leave the access to the
//! caller.

use vstd::prelude::*;

verus! {

/// One access to a control and status register.
#[derive(Clone, Copy, Debug, PartialEq, Eq, Structural)]
pub enum CsrOp {
    /// Write the value to the register.
    Write(usize),
    /// Set, in one atomic access, the bits of the register that are one in
    /// the mask.
    SetBits(usize),
    /// Clear, in one atomic access, the bits of the register that are one
    /// in the mask.
    ClearBits(usize),
}

/// A write to the control and status register of a given number.
#[derive(Clone, Copy, Debug, PartialEq, Eq, Structural)]
pub struct CsrWrite {
    /// Number of the register.
    pub csr: u16,
    /// The value to write.
    pub value: usize,
}

} // verus!
