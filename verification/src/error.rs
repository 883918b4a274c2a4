//! The error shared by the controllers.

use vstd::prelude::*;

verus! {

/// Why a controller refused an operation.
#[derive(Clone, Copy, Debug, PartialEq, Eq, Structural)]
pub enum Error {
    /// An argument lies beyond what its register field or index can hold:
    /// a priority wider than the implemented bits, source id 0 or one past
    /// the last source, a context that the controller was not built with,
    /// or a message target field wider than its bits.
    OutOfRange,
}

} // verus!
