//! The errors a handler can refuse with.

use vstd::prelude::*;

verus! {

/// Why a handler refused to act. A refused handler changes nothing.
#[derive(Clone, Copy, Debug, PartialEq, Eq, Structural)]
pub enum ErrorCode {
    /// The username's index record already has an owner.
    UsernameAlreadyExists,
    /// A monetary amount that must be positive is zero.
    InvalidAmount,
    /// The value of a priced supporter transfer is zero.
    InvalidTransferAmount,
    /// The source of a transfer holds less than the amount.
    InsufficientFunds,
    /// A withdrawal would leave the campaign below its reserve floor.
    InsufficientFundsAfterWithdraw,
    /// The caller is not the record's owner.
    InvalidSigner,
    /// A record already occupies the address to be created.
    AccountAlreadyInUse,
    /// An account is not at the address derived from its seeds.
    ConstraintSeeds,
    /// A text field is longer than the capacity its record reserves.
    CapacityExceeded,
    /// A balance, total or counter would leave the range of `u64`.
    ArithmeticOverflow,
}

impl ErrorCode {
    /// A message for the caller.
    pub fn message(&self) -> &'static str {
        match self {
            ErrorCode::UsernameAlreadyExists => "Username already exists",
            ErrorCode::InvalidAmount => "The provided amount must be greater than zero",
            ErrorCode::InvalidTransferAmount => "The transfer amount must be greater than zero",
            ErrorCode::InsufficientFunds => "You do not have enough funds to withdraw the requested amount",
            ErrorCode::InsufficientFundsAfterWithdraw => "Withdrawal would reduce the account balance below the rent-exempt minimum.",
            ErrorCode::InvalidSigner => "Signer does not have access to call this instruction.",
            ErrorCode::AccountAlreadyInUse => "The account is already in use",
            ErrorCode::ConstraintSeeds => "The account is not at the address derived from its seeds",
            ErrorCode::CapacityExceeded => "A text field exceeds the capacity reserved for it",
            ErrorCode::ArithmeticOverflow => "An amount or a counter overflowed",
        }
    }
}

} // verus!
