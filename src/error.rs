use vstd::prelude::*;

verus! {

/// Why an instruction was rejected. The first failing check aborts the whole
/// unit of work; nothing is retried and nothing is partially applied.
#[derive(Clone, Copy, Debug, PartialEq, Eq, Structural)]
pub enum AmmError {
    /// Wrong payload length, or a zero amount or bound where one is not allowed.
    MalformedInput,
    /// A derived address, an owner or a data length does not match.
    AccountMismatch,
    /// A required signature is missing.
    Unauthorized,
    /// The pool is not in the `Initialized` state.
    InvalidState,
    /// Overflow, division by zero or subtraction underflow.
    ArithmeticFailure,
    /// The quoted amount is worse than the caller's bound.
    SlippageExceeded,
    /// The instruction's deadline has passed.
    Expired,
}

} // verus!
