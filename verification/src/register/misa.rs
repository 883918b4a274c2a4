//! misa register: the widths that a hart can run at.

use vstd::prelude::*;

verus! {

/// Machine XLEN: the width of the integer registers.
#[derive(Clone, Copy, Debug, PartialEq, Eq, Structural)]
pub enum MXL {
    XLEN32,
    XLEN64,
    XLEN128,
}

impl MXL {
    /// The code of the width in a register field: 1, 2 or 3.
    pub open spec fn spec_code(self) -> usize {
        match self {
            MXL::XLEN32 => 1,
            MXL::XLEN64 => 2,
            MXL::XLEN128 => 3,
        }
    }

    /// The code of the width in a register field.
    pub fn code(self) -> (r: usize)
        ensures
            r == self.spec_code(),
    {
        match self {
            MXL::XLEN32 => 1,
            MXL::XLEN64 => 2,
            MXL::XLEN128 => 3,
        }
    }
}

} // verus!
