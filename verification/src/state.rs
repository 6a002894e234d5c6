//! Recoverable errors of the memory layer.

use vstd::prelude::*;

verus! {

/// A failure that is handed back to the caller and never ends the guest's
/// execution.
#[derive(Clone, Copy, Debug, PartialEq, Eq, Structural)]
pub enum Error {
    /// An address or a length does not fit into the 32 bits that a handle has
    /// for it.
    RangeExceeded,
    /// No outstanding allocation is recorded at the address: it was never
    /// allocated, or it was reclaimed before.
    InvalidPointer,
    /// The reclaimed bytes are not a serialized value of the expected type.
    Deserialization,
}

} // verus!
