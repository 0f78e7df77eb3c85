//! The failures that an operation on balances can report.

use vstd::prelude::*;

verus! {

/// What is wrong with a request before anything is looked up.
#[derive(Clone, Copy, PartialEq, Eq, Debug)]
pub enum Invalid {
    /// The amount is zero or negative.
    AmountNotPositive,
    /// A transfer names the same user as sender and as receiver.
    SameAccount,
}

/// What a request refers to and is not there.
#[derive(Clone, Copy, PartialEq, Eq, Debug)]
pub enum Missing {
    User(i32),
    Balance(i32),
    Topup(i32),
    Transfer(i32),
    Withdraw(i32),
}

/// The storage step at which an operation failed.
#[derive(Clone, Copy, PartialEq, Eq, Debug)]
pub enum Stage {
    /// Reading a ledger record.
    LedgerRead,
    /// Creating, changing or deleting a ledger record.
    LedgerWrite,
    /// Reading a balance.
    BalanceRead,
    /// Creating or changing a balance.
    BalanceWrite,
    /// The new total is outside of what a balance can hold, so it was never
    /// handed to the store.
    BalanceLimit,
}

/// Why an operation did not go through.
#[derive(Clone, Copy, PartialEq, Eq, Debug)]
pub enum AppError {
    /// The request is malformed. Nothing was looked up or written.
    ValidationError(Invalid),
    /// Something that the request refers to does not exist.
    NotFound(Missing),
    /// The user's balance does not cover the amount.
    InsufficientFunds { user_id: i32, balance: i32, amount: i32 },
    /// Storage failed, or could not take the value, at the given step.
    StorageError(Stage),
}

impl AppError {
    /// The name of the kind of failure.
    pub fn kind(&self) -> (name: &'static str)
        ensures
            name@ == (match *self {
                AppError::ValidationError(_) => "ValidationError"@,
                AppError::NotFound(_) => "NotFound"@,
                AppError::InsufficientFunds { .. } => "InsufficientFunds"@,
                AppError::StorageError(_) => "StorageError"@,
            }),
    {
        match self {
            AppError::ValidationError(_) => "ValidationError",
            AppError::NotFound(_) => "NotFound",
            AppError::InsufficientFunds { .. } => "InsufficientFunds",
            AppError::StorageError(_) => "StorageError",
        }
    }
}

} // verus!
