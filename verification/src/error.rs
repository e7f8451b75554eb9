//! The ways in which an operation on the ledger can be refused.

use vstd::prelude::*;

verus! {

/// Why an operation was refused. A refused operation changes nothing.
#[derive(Clone, Copy, Debug, PartialEq, Eq, Structural)]
pub enum FtError {
    /// The caller lacks the right to perform the operation.
    Unauthorized,
    /// The ledger has been created before.
    AlreadyInitialized,
    /// No ledger has been created yet.
    NotInitialized,
    /// The metadata asks for more than 18 decimals.
    InvalidMetadata,
    /// The lists of accounts and of amounts differ in length.
    LengthMismatch,
    /// A balance, an allowance or the total supply would exceed 128 bits.
    ArithmeticOverflow,
    /// The sender holds less than the amount to move.
    InsufficientBalance,
    /// The operation is void: a zero amount, or the same account on both sides.
    InvalidOperation,
    /// The caller holds no tokens.
    NoBalance,
    /// The owner has approved no spender at all.
    NoAllowance,
    /// The spender's allowance is less than the amount.
    AllowanceTooSmall,
    /// The account may mint already.
    AlreadyAuthorized,
}

} // verus!
