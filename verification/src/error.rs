//! The ways an operation can fail.

use vstd::prelude::*;

verus! {

/// Why an operation was refused. Every failure aborts the operation it
/// belongs to and leaves the ledger as it was.
#[derive(Clone, Copy, Debug, PartialEq, Eq, Structural)]
pub enum ErrorCode {
    /// The stream addressed is no longer active.
    StreamInactive,
    /// The caller is not the party that the operation is reserved for.
    Unauthorized,
    /// The index addresses no record of the ledger.
    IndexOutOfRange,
    /// The ledger already holds as many streams as it was created for.
    CapacityExceeded,
    /// A sum would leave the range it has to stay in.
    ArithmeticOverflow,
    /// A difference would be negative.
    ArithmeticUnderflow,
    /// A stream was asked for with a duration that is not positive.
    InvalidDuration,
    /// A stream was asked for with no funds.
    InvalidAmount,
    /// The treasury refused to move the funds.
    TransferFailed,
}

} // verus!
