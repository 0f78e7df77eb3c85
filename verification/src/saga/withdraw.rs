//! Creating, amending and deleting a withdrawal from a user's balance.
//!
//! The ledger is written first and the balance second. The balance has to
//! cover what is taken from it: a withdrawal that it does not cover is
//! refused, and the ledger write is taken back, as after any other failure
//! that follows it.

use crate::domain::{
    holdable, Balance, CreateWithdrawRequest, UpdateWithdrawRequest, WithdrawRecord,
};
use crate::errors::{AppError, Missing, Stage};
use vstd::prelude::*;

verus! {

/// A storage call that the machine waits for.
#[derive(Clone, Copy, PartialEq, Eq, Debug)]
pub enum WithdrawCommand {
    /// Does the user exist?
    FindUser(i32),
    /// Record the withdrawal under a new key.
    CreateWithdraw(WithdrawRecord),
    /// Read the withdrawal with this key.
    FindWithdraw(i32),
    /// Write the withdrawal over the one with its key.
    UpdateWithdraw(WithdrawRecord),
    /// Delete the withdrawal with this key.
    DeleteWithdraw(i32),
    /// Read the balance of the user.
    FindBalance(i32),
    /// Write the balance over the one of its user.
    UpdateBalance(Balance),
}

/// How a storage call went.
#[derive(Clone, Copy, PartialEq, Eq, Debug)]
pub enum WithdrawReply {
    /// The call failed.
    Failed,
    /// Whether the user exists.
    User(bool),
    /// The withdrawal that was read, created or written, if any.
    Withdraw(Option<WithdrawRecord>),
    /// The balance that was read, if any.
    Balance(Option<Balance>),
    /// The write went through.
    Done,
}

/// What the caller is to do next.
#[derive(Clone, Copy, PartialEq, Eq, Debug)]
pub enum WithdrawStep {
    /// Make the call and report how it went.
    Perform(WithdrawCommand),
    /// Stop: this is the operation's result.
    Finish(Result<WithdrawRecord, AppError>),
}

/// How to take back a write to the ledger.
#[derive(Clone, Copy, PartialEq, Eq, Debug)]
pub enum WithdrawUndo {
    /// Delete the record that was created.
    Delete(i32),
    /// Write the record back as it was.
    Restore(WithdrawRecord),
}

/// The write to the ledger that an operation starts with.
#[derive(Clone, Copy, PartialEq, Eq, Debug)]
pub enum WithdrawWrite {
    /// Record a new withdrawal.
    Create(WithdrawRecord),
    /// Write `revised` over `previous`.
    Amend { revised: WithdrawRecord, previous: WithdrawRecord },
}

/// Where an operation on a withdrawal stands.
#[derive(Clone, Copy, PartialEq, Eq, Debug)]
pub enum WithdrawSaga {
    /// Asked whether the user exists.
    Owner { record: WithdrawRecord, amending: bool },
    /// Asked for the withdrawal that is to be amended.
    Existing { revised: WithdrawRecord },
    /// Asked for the write to the ledger.
    Writing { write: WithdrawWrite },
    /// Asked for the user's balance.
    Reading { record: WithdrawRecord, undo: WithdrawUndo },
    /// Asked to write `balance` over the user's balance.
    Debiting { record: WithdrawRecord, undo: WithdrawUndo, balance: Balance },
    /// Taking back the ledger write. `error` is what made the operation fail.
    Compensate { undo: WithdrawUndo, error: AppError },
    /// Asked for the withdrawal that is to be deleted.
    Doomed { withdraw_id: i32 },
    /// Asked to delete the withdrawal.
    Deleting { record: WithdrawRecord },
    /// Nothing is left to do.
    Finished { result: Result<WithdrawRecord, AppError> },
}

/// The amount that an operation takes from the balance: the whole amount of
/// a new withdrawal, and for an amended one the change of its amount.
pub open spec fn withdraw_delta(record: WithdrawRecord, undo: WithdrawUndo) -> int {
    match undo {
        WithdrawUndo::Delete(_) => record.withdraw_amount as int,
        WithdrawUndo::Restore(previous) => record.withdraw_amount - previous.withdraw_amount,
    }
}

/// The machine's state once it has read the user's balance.
pub open spec fn after_balance(
    record: WithdrawRecord,
    undo: WithdrawUndo,
    found: Option<Balance>,
) -> WithdrawSaga {
    match found {
        None => WithdrawSaga::Compensate {
            undo,
            error: AppError::NotFound(Missing::Balance(record.user_id)),
        },
        Some(balance) => if balance.total_balance < withdraw_delta(record, undo) {
            WithdrawSaga::Compensate {
                undo,
                error: AppError::InsufficientFunds {
                    user_id: record.user_id,
                    balance: balance.total_balance,
                    amount: record.withdraw_amount,
                },
            }
        } else if !holdable(balance.total_balance - withdraw_delta(record, undo)) {
            WithdrawSaga::Compensate { undo, error: AppError::StorageError(Stage::BalanceLimit) }
        } else {
            WithdrawSaga::Debiting {
                record,
                undo,
                balance: balance.withdrawn(
                    (balance.total_balance - withdraw_delta(record, undo)) as i32,
                    record.withdraw_amount,
                    record.withdraw_time,
                ),
            }
        },
    }
}

impl WithdrawSaga {
    /// The machine for a new withdrawal. An invalid request finishes at once.
    pub open spec fn create(input: CreateWithdrawRequest) -> WithdrawSaga {
        match input.verdict() {
            Err(problem) => WithdrawSaga::Finished {
                result: Err(AppError::ValidationError(problem)),
            },
            Ok(_) => WithdrawSaga::Owner { record: input.draft(), amending: false },
        }
    }

    /// The machine for amending a withdrawal. An invalid request finishes at
    /// once.
    pub open spec fn update(input: UpdateWithdrawRequest) -> WithdrawSaga {
        match input.verdict() {
            Err(problem) => WithdrawSaga::Finished {
                result: Err(AppError::ValidationError(problem)),
            },
            Ok(_) => WithdrawSaga::Owner { record: input.revised(), amending: true },
        }
    }

    /// The machine for deleting a withdrawal.
    pub open spec fn delete(withdraw_id: i32) -> WithdrawSaga {
        WithdrawSaga::Doomed { withdraw_id }
    }

    /// What the machine waits for in this state.
    pub open spec fn step(self) -> WithdrawStep {
        match self {
            WithdrawSaga::Owner { record, .. } => WithdrawStep::Perform(
                WithdrawCommand::FindUser(record.user_id),
            ),
            WithdrawSaga::Existing { revised } => WithdrawStep::Perform(
                WithdrawCommand::FindWithdraw(revised.withdraw_id),
            ),
            WithdrawSaga::Writing { write } => match write {
                WithdrawWrite::Create(draft) => WithdrawStep::Perform(
                    WithdrawCommand::CreateWithdraw(draft),
                ),
                WithdrawWrite::Amend { revised, .. } => WithdrawStep::Perform(
                    WithdrawCommand::UpdateWithdraw(revised),
                ),
            },
            WithdrawSaga::Reading { record, .. } => WithdrawStep::Perform(
                WithdrawCommand::FindBalance(record.user_id),
            ),
            WithdrawSaga::Debiting { balance, .. } => WithdrawStep::Perform(
                WithdrawCommand::UpdateBalance(balance),
            ),
            WithdrawSaga::Compensate { undo, .. } => match undo {
                WithdrawUndo::Delete(withdraw_id) => WithdrawStep::Perform(
                    WithdrawCommand::DeleteWithdraw(withdraw_id),
                ),
                WithdrawUndo::Restore(previous) => WithdrawStep::Perform(
                    WithdrawCommand::UpdateWithdraw(previous),
                ),
            },
            WithdrawSaga::Doomed { withdraw_id } => WithdrawStep::Perform(
                WithdrawCommand::FindWithdraw(withdraw_id),
            ),
            WithdrawSaga::Deleting { record } => WithdrawStep::Perform(
                WithdrawCommand::DeleteWithdraw(record.withdraw_id),
            ),
            WithdrawSaga::Finished { result } => WithdrawStep::Finish(result),
        }
    }

    /// The state that follows once the call that the machine waited for has
    /// been answered with `reply`. Any reply but the one that reports success
    /// counts as a failure of the call.
    pub open spec fn next(self, reply: WithdrawReply) -> WithdrawSaga {
        match self {
            WithdrawSaga::Owner { record, amending } => match reply {
                WithdrawReply::User(true) => if amending {
                    WithdrawSaga::Existing { revised: record }
                } else {
                    WithdrawSaga::Writing { write: WithdrawWrite::Create(record) }
                },
                _ => WithdrawSaga::Finished {
                    result: Err(AppError::NotFound(Missing::User(record.user_id))),
                },
            },
            WithdrawSaga::Existing { revised } => match reply {
                WithdrawReply::Withdraw(Some(previous)) => WithdrawSaga::Writing {
                    write: WithdrawWrite::Amend { revised, previous },
                },
                WithdrawReply::Withdraw(None) => WithdrawSaga::Finished {
                    result: Err(AppError::NotFound(Missing::Withdraw(revised.withdraw_id))),
                },
                _ => WithdrawSaga::Finished {
                    result: Err(AppError::StorageError(Stage::LedgerRead)),
                },
            },
            WithdrawSaga::Writing { write } => match reply {
                WithdrawReply::Withdraw(Some(record)) => WithdrawSaga::Reading {
                    record,
                    undo: match write {
                        WithdrawWrite::Create(_) => WithdrawUndo::Delete(record.withdraw_id),
                        WithdrawWrite::Amend { previous, .. } => WithdrawUndo::Restore(previous),
                    },
                },
                _ => WithdrawSaga::Finished {
                    result: Err(AppError::StorageError(Stage::LedgerWrite)),
                },
            },
            WithdrawSaga::Reading { record, undo } => match reply {
                WithdrawReply::Balance(found) => after_balance(record, undo, found),
                _ => WithdrawSaga::Compensate {
                    undo,
                    error: AppError::StorageError(Stage::BalanceRead),
                },
            },
            WithdrawSaga::Debiting { record, undo, .. } => match reply {
                WithdrawReply::Done => WithdrawSaga::Finished { result: Ok(record) },
                _ => WithdrawSaga::Compensate {
                    undo,
                    error: AppError::StorageError(Stage::BalanceWrite),
                },
            },
            WithdrawSaga::Compensate { error, .. } => WithdrawSaga::Finished { result: Err(error) },
            WithdrawSaga::Doomed { withdraw_id } => match reply {
                WithdrawReply::Withdraw(Some(record)) => WithdrawSaga::Deleting { record },
                WithdrawReply::Withdraw(None) => WithdrawSaga::Finished {
                    result: Err(AppError::NotFound(Missing::Withdraw(withdraw_id))),
                },
                _ => WithdrawSaga::Finished {
                    result: Err(AppError::StorageError(Stage::LedgerRead)),
                },
            },
            WithdrawSaga::Deleting { record } => match reply {
                WithdrawReply::Done => WithdrawSaga::Finished { result: Ok(record) },
                _ => WithdrawSaga::Finished {
                    result: Err(AppError::StorageError(Stage::LedgerWrite)),
                },
            },
            WithdrawSaga::Finished { result } => WithdrawSaga::Finished { result },
        }
    }

    /// An upper bound on the number of calls that the machine still asks for.
    pub open spec fn remaining(self) -> nat {
        match self {
            WithdrawSaga::Owner { .. } => 6,
            WithdrawSaga::Existing { .. } => 5,
            WithdrawSaga::Writing { .. } => 4,
            WithdrawSaga::Reading { .. } => 3,
            WithdrawSaga::Debiting { .. } => 2,
            WithdrawSaga::Compensate { .. } => 1,
            WithdrawSaga::Doomed { .. } => 2,
            WithdrawSaga::Deleting { .. } => 1,
            WithdrawSaga::Finished { .. } => 0,
        }
    }

    /// Starts a new withdrawal.
    pub fn begin_create(input: &CreateWithdrawRequest) -> (saga: WithdrawSaga)
        ensures
            saga == WithdrawSaga::create(*input),
    {
        match input.validate() {
            Err(problem) => WithdrawSaga::Finished {
                result: Err(AppError::ValidationError(problem)),
            },
            Ok(_) => WithdrawSaga::Owner { record: input.to_draft(), amending: false },
        }
    }

    /// Starts amending a withdrawal.
    pub fn begin_update(input: &UpdateWithdrawRequest) -> (saga: WithdrawSaga)
        ensures
            saga == WithdrawSaga::update(*input),
    {
        match input.validate() {
            Err(problem) => WithdrawSaga::Finished {
                result: Err(AppError::ValidationError(problem)),
            },
            Ok(_) => WithdrawSaga::Owner { record: input.to_revised(), amending: true },
        }
    }

    /// Starts deleting a withdrawal.
    pub fn begin_delete(withdraw_id: i32) -> (saga: WithdrawSaga)
        ensures
            saga == WithdrawSaga::delete(withdraw_id),
    {
        WithdrawSaga::Doomed { withdraw_id }
    }

    /// The call that the machine waits for, or its result.
    pub fn pending(&self) -> (step: WithdrawStep)
        ensures
            step == self.step(),
    {
        match *self {
            WithdrawSaga::Owner { record, .. } => WithdrawStep::Perform(
                WithdrawCommand::FindUser(record.user_id),
            ),
            WithdrawSaga::Existing { revised } => WithdrawStep::Perform(
                WithdrawCommand::FindWithdraw(revised.withdraw_id),
            ),
            WithdrawSaga::Writing { write } => match write {
                WithdrawWrite::Create(draft) => WithdrawStep::Perform(
                    WithdrawCommand::CreateWithdraw(draft),
                ),
                WithdrawWrite::Amend { revised, .. } => WithdrawStep::Perform(
                    WithdrawCommand::UpdateWithdraw(revised),
                ),
            },
            WithdrawSaga::Reading { record, .. } => WithdrawStep::Perform(
                WithdrawCommand::FindBalance(record.user_id),
            ),
            WithdrawSaga::Debiting { balance, .. } => WithdrawStep::Perform(
                WithdrawCommand::UpdateBalance(balance),
            ),
            WithdrawSaga::Compensate { undo, .. } => match undo {
                WithdrawUndo::Delete(withdraw_id) => WithdrawStep::Perform(
                    WithdrawCommand::DeleteWithdraw(withdraw_id),
                ),
                WithdrawUndo::Restore(previous) => WithdrawStep::Perform(
                    WithdrawCommand::UpdateWithdraw(previous),
                ),
            },
            WithdrawSaga::Doomed { withdraw_id } => WithdrawStep::Perform(
                WithdrawCommand::FindWithdraw(withdraw_id),
            ),
            WithdrawSaga::Deleting { record } => WithdrawStep::Perform(
                WithdrawCommand::DeleteWithdraw(record.withdraw_id),
            ),
            WithdrawSaga::Finished { result } => WithdrawStep::Finish(result),
        }
    }

    /// Moves on with the answer to the call that the machine waited for.
    pub fn advance(self, reply: WithdrawReply) -> (saga: WithdrawSaga)
        ensures
            saga == self.next(reply),
            saga.remaining() < self.remaining() || self is Finished,
    {
        match self {
            WithdrawSaga::Owner { record, amending } => match reply {
                WithdrawReply::User(true) => if amending {
                    WithdrawSaga::Existing { revised: record }
                } else {
                    WithdrawSaga::Writing { write: WithdrawWrite::Create(record) }
                },
                _ => WithdrawSaga::Finished {
                    result: Err(AppError::NotFound(Missing::User(record.user_id))),
                },
            },
            WithdrawSaga::Existing { revised } => match reply {
                WithdrawReply::Withdraw(Some(previous)) => WithdrawSaga::Writing {
                    write: WithdrawWrite::Amend { revised, previous },
                },
                WithdrawReply::Withdraw(None) => WithdrawSaga::Finished {
                    result: Err(AppError::NotFound(Missing::Withdraw(revised.withdraw_id))),
                },
                _ => WithdrawSaga::Finished {
                    result: Err(AppError::StorageError(Stage::LedgerRead)),
                },
            },
            WithdrawSaga::Writing { write } => match reply {
                WithdrawReply::Withdraw(Some(record)) => WithdrawSaga::Reading {
                    record,
                    undo: match write {
                        WithdrawWrite::Create(_) => WithdrawUndo::Delete(record.withdraw_id),
                        WithdrawWrite::Amend { previous, .. } => WithdrawUndo::Restore(previous),
                    },
                },
                _ => WithdrawSaga::Finished {
                    result: Err(AppError::StorageError(Stage::LedgerWrite)),
                },
            },
            WithdrawSaga::Reading { record, undo } => match reply {
                WithdrawReply::Balance(found) => balance_read(record, undo, found),
                _ => WithdrawSaga::Compensate {
                    undo,
                    error: AppError::StorageError(Stage::BalanceRead),
                },
            },
            WithdrawSaga::Debiting { record, undo, .. } => match reply {
                WithdrawReply::Done => WithdrawSaga::Finished { result: Ok(record) },
                _ => WithdrawSaga::Compensate {
                    undo,
                    error: AppError::StorageError(Stage::BalanceWrite),
                },
            },
            WithdrawSaga::Compensate { error, .. } => WithdrawSaga::Finished { result: Err(error) },
            WithdrawSaga::Doomed { withdraw_id } => match reply {
                WithdrawReply::Withdraw(Some(record)) => WithdrawSaga::Deleting { record },
                WithdrawReply::Withdraw(None) => WithdrawSaga::Finished {
                    result: Err(AppError::NotFound(Missing::Withdraw(withdraw_id))),
                },
                _ => WithdrawSaga::Finished {
                    result: Err(AppError::StorageError(Stage::LedgerRead)),
                },
            },
            WithdrawSaga::Deleting { record } => match reply {
                WithdrawReply::Done => WithdrawSaga::Finished { result: Ok(record) },
                _ => WithdrawSaga::Finished {
                    result: Err(AppError::StorageError(Stage::LedgerWrite)),
                },
            },
            WithdrawSaga::Finished { result } => WithdrawSaga::Finished { result },
        }
    }
}

/// The amount that an operation takes from the balance.
pub fn taken(record: &WithdrawRecord, undo: &WithdrawUndo) -> (amount: i64)
    ensures
        amount == withdraw_delta(*record, *undo),
{
    match undo {
        WithdrawUndo::Delete(_) => record.withdraw_amount as i64,
        WithdrawUndo::Restore(previous) => record.withdraw_amount as i64
            - previous.withdraw_amount as i64,
    }
}

/// Decides what follows the reading of the user's balance: the write of the
/// lowered total together with the amount and time of this withdrawal, or,
/// where there is no balance, it does not cover what is taken, or the new
/// total cannot be held, the taking back of the ledger write.
pub fn balance_read(record: WithdrawRecord, undo: WithdrawUndo, found: Option<Balance>) -> (saga:
    WithdrawSaga)
    ensures
        saga == after_balance(record, undo, found),
{
    match found {
        None => WithdrawSaga::Compensate {
            undo,
            error: AppError::NotFound(Missing::Balance(record.user_id)),
        },
        Some(balance) => {
            let amount: i64 = taken(&record, &undo);
            let total: i64 = balance.total_balance as i64 - amount;
            if (balance.total_balance as i64) < amount {
                WithdrawSaga::Compensate {
                    undo,
                    error: AppError::InsufficientFunds {
                        user_id: record.user_id,
                        balance: balance.total_balance,
                        amount: record.withdraw_amount,
                    },
                }
            } else if total < i32::MIN as i64 || total > i32::MAX as i64 {
                WithdrawSaga::Compensate {
                    undo,
                    error: AppError::StorageError(Stage::BalanceLimit),
                }
            } else {
                WithdrawSaga::Debiting {
                    record,
                    undo,
                    balance: Balance {
                        user_id: balance.user_id,
                        total_balance: total as i32,
                        withdraw_amount: Some(record.withdraw_amount),
                        withdraw_time: Some(record.withdraw_time),
                    },
                }
            }
        },
    }
}

impl WithdrawSaga {
    /// Whether the operation's write to the ledger has gone through.
    pub open spec fn past_ledger_write(self) -> bool {
        self is Reading || self is Debiting || self is Compensate
    }
}

/// The ledger is written before the balance is touched: a machine asks for a
/// balance only in a state that lies past its write to the ledger, and the
/// only way into such a state is a write to the ledger that went through.
pub proof fn lemma_ledger_is_written_first(saga: WithdrawSaga, reply: WithdrawReply)
    ensures
        saga.step() matches WithdrawStep::Perform(command) && (command is FindBalance || command
            is UpdateBalance) ==> saga.past_ledger_write(),
        saga.next(reply).past_ledger_write() ==> saga.past_ledger_write() || (saga is Writing
            && reply matches WithdrawReply::Withdraw(Some(_))),
{
}

/// A compensation that fails does not hide why the operation failed: whatever
/// the ledger replies to the compensating call, the machine finishes with the
/// error that caused the compensation.
pub proof fn lemma_compensation_keeps_error(
    undo: WithdrawUndo,
    error: AppError,
    reply: WithdrawReply,
)
    ensures
        (WithdrawSaga::Compensate { undo, error }).next(reply) == (WithdrawSaga::Finished {
            result: Err(error),
        }),
{
}

/// A machine that has finished stays finished, with the same result.
pub proof fn lemma_finished_is_final(result: Result<WithdrawRecord, AppError>, reply: WithdrawReply)
    ensures
        (WithdrawSaga::Finished { result }).next(reply) == (WithdrawSaga::Finished { result }),
        (WithdrawSaga::Finished { result }).step() == WithdrawStep::Finish(result),
{
}

} // verus!
