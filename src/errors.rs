use vstd::prelude::*;

verus! {

/// Every way a migration operation can fail.
#[derive(Debug, Clone, Copy, PartialEq, Eq, Structural)]
pub enum ErrorCode {
    /// The operation's gate is closed: a permanent rejection.
    InstructionNotSupported,
    /// The requested capacity exceeds the platform ceiling.
    InvalidCapacity,
    /// The funding source cannot cover the slot's shortfall.
    InsufficientFunding,
    /// A zero-fill range does not lie within the slot.
    RangeOutOfBounds,
}

} // verus!
