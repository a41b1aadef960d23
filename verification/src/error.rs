use vstd::prelude::*;

verus! {

/// Every way an operation of this library can fail.
#[derive(Clone, Copy, Debug, PartialEq, Eq, Structural)]
pub enum ErrorCode {
    /// An addition, subtraction or multiplication left the range of its
    /// type, or a division had a zero divisor.
    MathError,
    /// A value did not fit the integer type it was converted to.
    CastingFailure,
    /// A timestamp was negative and cannot stand for a point in time.
    UnableToCastUnixTime,
    /// A query or builder was used in a mode that does not support it.
    InvalidMarginCalculation,
    /// The running totals contradict each other.
    InvalidMarginRatio,
    /// No bank account with the index asked for was handed over.
    BankNotFound,
    /// The data of a bank account is borrowed elsewhere or is no bank.
    UnableToLoadBankAccount,
    /// The data of an account could not be borrowed.
    CouldNotLoadBankData,
    /// An account that looks like a bank is owned by someone else.
    InvalidBankAccount,
    /// A bank that must be writable was handed over read-only.
    BankWrongMutability,
}

} // verus!
