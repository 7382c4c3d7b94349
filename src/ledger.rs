//! Accounts and the movement of value between them.

use vstd::prelude::*;
use crate::address::Address;
use crate::error::ErrorCode;

verus! {

/// A plain account that holds value: a caller, a receiver, a fee collector.
#[derive(Clone, Copy, Debug)]
pub struct Wallet {
    pub key: Address,
    pub lamports: u64,
}

/// An account that holds a record, at its derived address. A slot for a record
/// not created yet holds `None`.
#[derive(Clone, Debug)]
pub struct Account<T> {
    pub key: Address,
    pub lamports: u64,
    /// The storage reserved for the record, in bytes.
    pub data_len: usize,
    pub data: T,
}

/// What a transfer of `amount` from a balance `from` to a balance `to` returns.
pub open spec fn transfer_outcome(from: u64, to: u64, amount: u64) -> Result<(), ErrorCode> {
    if from < amount {
        Err(ErrorCode::InsufficientFunds)
    } else if to + amount > u64::MAX {
        Err(ErrorCode::ArithmeticOverflow)
    } else {
        Ok(())
    }
}

/// Moves `amount` from one balance to another: both change or neither does,
/// and their sum stays the same. A zero amount moves nothing; the handlers that
/// take an amount from their caller refuse zero themselves.
pub fn transfer(from: &mut u64, to: &mut u64, amount: u64) -> (r: Result<(), ErrorCode>)
    ensures
        r == transfer_outcome(*old(from), *old(to), amount),
        r is Ok ==> *final(from) == *old(from) - amount && *final(to) == *old(to) + amount,
        r is Ok ==> *final(from) + *final(to) == *old(from) + *old(to),
        r is Err ==> *final(from) == *old(from) && *final(to) == *old(to),
{
    if *from < amount {
        return Err(ErrorCode::InsufficientFunds);
    }
    if *to > u64::MAX - amount {
        return Err(ErrorCode::ArithmeticOverflow);
    }
    *from = *from - amount;
    *to = *to + amount;
    Ok(())
}

} // verus!
