//! Creating, amending and deleting a top-up of a user's balance.
//!
//! The ledger is written first and the balance second. A user's first top-up
//! opens the balance; every later one raises it. Whatever fails after the
//! ledger write is answered by taking the ledger write back.

use crate::domain::{holdable, Balance, CreateTopupRequest, TopupRecord, UpdateTopupRequest};
use crate::errors::{AppError, Missing, Stage};
use vstd::prelude::*;

verus! {

/// A storage call that the machine waits for.
#[derive(PartialEq, Eq, Debug)]
pub enum TopupCommand {
    /// Does the user exist?
    FindUser(i32),
    /// Record the top-up under a new key.
    CreateTopup(TopupRecord),
    /// Read the top-up with this key.
    FindTopup(i32),
    /// Write the top-up over the one with its key.
    UpdateTopup(TopupRecord),
    /// Delete the top-up with this key.
    DeleteTopup(i32),
    /// Read the balance of the user.
    FindBalance(i32),
    /// Open this balance for a user who has none.
    CreateBalance(Balance),
    /// Write the balance over the one of its user.
    UpdateBalance(Balance),
}

/// How a storage call went.
#[derive(PartialEq, Eq, Debug)]
pub enum TopupReply {
    /// The call failed.
    Failed,
    /// Whether the user exists.
    User(bool),
    /// The top-up that was read, created or written, if any.
    Topup(Option<TopupRecord>),
    /// The balance that was read, if any.
    Balance(Option<Balance>),
    /// The write went through.
    Done,
}

/// What the caller is to do next.
#[derive(PartialEq, Eq, Debug)]
pub enum TopupStep {
    /// Make the call and report how it went.
    Perform(TopupCommand),
    /// Stop: this is the operation's result.
    Finish(Result<TopupRecord, AppError>),
}

/// How to take back a write to the ledger.
#[derive(PartialEq, Eq, Debug)]
pub enum TopupUndo {
    /// Delete the record that was created.
    Delete(i32),
    /// Write the record back as it was.
    Restore(TopupRecord),
}

/// The write to the ledger that an operation starts with.
#[derive(PartialEq, Eq, Debug)]
pub enum TopupWrite {
    /// Record a new top-up.
    Create(TopupRecord),
    /// Write `revised` over `previous`.
    Amend { revised: TopupRecord, previous: TopupRecord },
}

/// Where an operation on a top-up stands.
#[derive(PartialEq, Eq, Debug)]
pub enum TopupSaga {
    /// Asked whether the user exists.
    Owner { record: TopupRecord, amending: bool },
    /// Asked for the top-up that is to be amended.
    Existing { revised: TopupRecord },
    /// Asked for the write to the ledger.
    Writing { write: TopupWrite },
    /// Asked for the user's balance.
    Reading { record: TopupRecord, undo: TopupUndo },
    /// Asked to write `balance`: to open it where `opening`, else to write it
    /// over the user's balance.
    Crediting { record: TopupRecord, undo: TopupUndo, balance: Balance, opening: bool },
    /// Taking back the ledger write. `error` is what made the operation fail.
    Compensate { undo: TopupUndo, error: AppError },
    /// Asked for the top-up that is to be deleted.
    Doomed { topup_id: i32 },
    /// Asked to delete the top-up.
    Deleting { record: TopupRecord },
    /// Nothing is left to do.
    Finished { result: Result<TopupRecord, AppError> },
}

/// The amount by which an operation raises the balance: the whole amount of a
/// new top-up, and for an amended one the change of its amount.
pub open spec fn topup_delta(record: TopupRecord, undo: TopupUndo) -> int {
    match undo {
        TopupUndo::Delete(_) => record.topup_amount as int,
        TopupUndo::Restore(previous) => record.topup_amount - previous.topup_amount,
    }
}

/// The machine's state once it has read the user's balance.
pub open spec fn after_balance(record: TopupRecord, undo: TopupUndo, found: Option<Balance>) -> TopupSaga {
    match found {
        Some(balance) => if holdable(balance.total_balance + topup_delta(record, undo)) {
            TopupSaga::Crediting {
                record,
                undo,
                balance: balance.with_total(
                    (balance.total_balance + topup_delta(record, undo)) as i32,
                ),
                opening: false,
            }
        } else {
            TopupSaga::Compensate { undo, error: AppError::StorageError(Stage::BalanceLimit) }
        },
        None => if undo is Delete {
            TopupSaga::Crediting {
                record,
                undo,
                balance: Balance::opened(record.user_id, record.topup_amount),
                opening: true,
            }
        } else {
            TopupSaga::Compensate {
                undo,
                error: AppError::NotFound(Missing::Balance(record.user_id)),
            }
        },
    }
}

impl TopupSaga {
    /// The machine for a new top-up. An invalid request finishes at once.
    pub open spec fn create(input: CreateTopupRequest) -> TopupSaga {
        match input.verdict() {
            Err(problem) => TopupSaga::Finished {
                result: Err(AppError::ValidationError(problem)),
            },
            Ok(_) => TopupSaga::Owner { record: input.draft(), amending: false },
        }
    }

    /// The machine for amending a top-up. An invalid request finishes at once.
    pub open spec fn update(input: UpdateTopupRequest) -> TopupSaga {
        match input.verdict() {
            Err(problem) => TopupSaga::Finished {
                result: Err(AppError::ValidationError(problem)),
            },
            Ok(_) => TopupSaga::Owner { record: input.revised(), amending: true },
        }
    }

    /// The machine for deleting a top-up.
    pub open spec fn delete(topup_id: i32) -> TopupSaga {
        TopupSaga::Doomed { topup_id }
    }

    /// What the machine waits for in this state.
    pub open spec fn step(self) -> TopupStep {
        match self {
            TopupSaga::Owner { record, .. } => TopupStep::Perform(
                TopupCommand::FindUser(record.user_id),
            ),
            TopupSaga::Existing { revised } => TopupStep::Perform(
                TopupCommand::FindTopup(revised.topup_id),
            ),
            TopupSaga::Writing { write } => match write {
                TopupWrite::Create(draft) => TopupStep::Perform(TopupCommand::CreateTopup(draft)),
                TopupWrite::Amend { revised, .. } => TopupStep::Perform(
                    TopupCommand::UpdateTopup(revised),
                ),
            },
            TopupSaga::Reading { record, .. } => TopupStep::Perform(
                TopupCommand::FindBalance(record.user_id),
            ),
            TopupSaga::Crediting { balance, opening, .. } => if opening {
                TopupStep::Perform(TopupCommand::CreateBalance(balance))
            } else {
                TopupStep::Perform(TopupCommand::UpdateBalance(balance))
            },
            TopupSaga::Compensate { undo, .. } => match undo {
                TopupUndo::Delete(topup_id) => TopupStep::Perform(
                    TopupCommand::DeleteTopup(topup_id),
                ),
                TopupUndo::Restore(previous) => TopupStep::Perform(
                    TopupCommand::UpdateTopup(previous),
                ),
            },
            TopupSaga::Doomed { topup_id } => TopupStep::Perform(
                TopupCommand::FindTopup(topup_id),
            ),
            TopupSaga::Deleting { record } => TopupStep::Perform(
                TopupCommand::DeleteTopup(record.topup_id),
            ),
            TopupSaga::Finished { result } => TopupStep::Finish(result),
        }
    }

    /// The state that follows once the call that the machine waited for has
    /// been answered with `reply`. Any reply but the one that reports success
    /// counts as a failure of the call.
    pub open spec fn next(self, reply: TopupReply) -> TopupSaga {
        match self {
            TopupSaga::Owner { record, amending } => match reply {
                TopupReply::User(true) => if amending {
                    TopupSaga::Existing { revised: record }
                } else {
                    TopupSaga::Writing { write: TopupWrite::Create(record) }
                },
                _ => TopupSaga::Finished {
                    result: Err(AppError::NotFound(Missing::User(record.user_id))),
                },
            },
            TopupSaga::Existing { revised } => match reply {
                TopupReply::Topup(Some(previous)) => TopupSaga::Writing {
                    write: TopupWrite::Amend { revised, previous },
                },
                TopupReply::Topup(None) => TopupSaga::Finished {
                    result: Err(AppError::NotFound(Missing::Topup(revised.topup_id))),
                },
                _ => TopupSaga::Finished {
                    result: Err(AppError::StorageError(Stage::LedgerRead)),
                },
            },
            TopupSaga::Writing { write } => match reply {
                TopupReply::Topup(Some(record)) => TopupSaga::Reading {
                    record,
                    undo: match write {
                        TopupWrite::Create(_) => TopupUndo::Delete(record.topup_id),
                        TopupWrite::Amend { previous, .. } => TopupUndo::Restore(previous),
                    },
                },
                _ => TopupSaga::Finished {
                    result: Err(AppError::StorageError(Stage::LedgerWrite)),
                },
            },
            TopupSaga::Reading { record, undo } => match reply {
                TopupReply::Balance(found) => after_balance(record, undo, found),
                _ => TopupSaga::Compensate {
                    undo,
                    error: AppError::StorageError(Stage::BalanceRead),
                },
            },
            TopupSaga::Crediting { record, undo, .. } => match reply {
                TopupReply::Done => TopupSaga::Finished { result: Ok(record) },
                _ => TopupSaga::Compensate {
                    undo,
                    error: AppError::StorageError(Stage::BalanceWrite),
                },
            },
            TopupSaga::Compensate { error, .. } => TopupSaga::Finished { result: Err(error) },
            TopupSaga::Doomed { topup_id } => match reply {
                TopupReply::Topup(Some(record)) => TopupSaga::Deleting { record },
                TopupReply::Topup(None) => TopupSaga::Finished {
                    result: Err(AppError::NotFound(Missing::Topup(topup_id))),
                },
                _ => TopupSaga::Finished {
                    result: Err(AppError::StorageError(Stage::LedgerRead)),
                },
            },
            TopupSaga::Deleting { record } => match reply {
                TopupReply::Done => TopupSaga::Finished { result: Ok(record) },
                _ => TopupSaga::Finished {
                    result: Err(AppError::StorageError(Stage::LedgerWrite)),
                },
            },
            TopupSaga::Finished { result } => TopupSaga::Finished { result },
        }
    }

    /// An upper bound on the number of calls that the machine still asks for.
    pub open spec fn remaining(self) -> nat {
        match self {
            TopupSaga::Owner { .. } => 6,
            TopupSaga::Existing { .. } => 5,
            TopupSaga::Writing { .. } => 4,
            TopupSaga::Reading { .. } => 3,
            TopupSaga::Crediting { .. } => 2,
            TopupSaga::Compensate { .. } => 1,
            TopupSaga::Doomed { .. } => 2,
            TopupSaga::Deleting { .. } => 1,
            TopupSaga::Finished { .. } => 0,
        }
    }

    /// Starts a new top-up.
    pub fn begin_create(input: &CreateTopupRequest) -> (saga: TopupSaga)
        ensures
            saga == TopupSaga::create(*input),
    {
        match input.validate() {
            Err(problem) => TopupSaga::Finished {
                result: Err(AppError::ValidationError(problem)),
            },
            Ok(_) => TopupSaga::Owner { record: input.to_draft(), amending: false },
        }
    }

    /// Starts amending a top-up.
    pub fn begin_update(input: &UpdateTopupRequest) -> (saga: TopupSaga)
        ensures
            saga == TopupSaga::update(*input),
    {
        match input.validate() {
            Err(problem) => TopupSaga::Finished {
                result: Err(AppError::ValidationError(problem)),
            },
            Ok(_) => TopupSaga::Owner { record: input.to_revised(), amending: true },
        }
    }

    /// Starts deleting a top-up.
    pub fn begin_delete(topup_id: i32) -> (saga: TopupSaga)
        ensures
            saga == TopupSaga::delete(topup_id),
    {
        TopupSaga::Doomed { topup_id }
    }

    /// The call that the machine waits for, or its result.
    pub fn pending(&self) -> (step: TopupStep)
        ensures
            step == self.step(),
    {
        match self {
            TopupSaga::Owner { record, .. } => TopupStep::Perform(
                TopupCommand::FindUser(record.user_id),
            ),
            TopupSaga::Existing { revised } => TopupStep::Perform(
                TopupCommand::FindTopup(revised.topup_id),
            ),
            TopupSaga::Writing { write } => match write {
                TopupWrite::Create(draft) => TopupStep::Perform(
                    TopupCommand::CreateTopup(draft.clone()),
                ),
                TopupWrite::Amend { revised, .. } => TopupStep::Perform(
                    TopupCommand::UpdateTopup(revised.clone()),
                ),
            },
            TopupSaga::Reading { record, .. } => TopupStep::Perform(
                TopupCommand::FindBalance(record.user_id),
            ),
            TopupSaga::Crediting { balance, opening, .. } => if *opening {
                TopupStep::Perform(TopupCommand::CreateBalance(*balance))
            } else {
                TopupStep::Perform(TopupCommand::UpdateBalance(*balance))
            },
            TopupSaga::Compensate { undo, .. } => match undo {
                TopupUndo::Delete(topup_id) => TopupStep::Perform(
                    TopupCommand::DeleteTopup(*topup_id),
                ),
                TopupUndo::Restore(previous) => TopupStep::Perform(
                    TopupCommand::UpdateTopup(previous.clone()),
                ),
            },
            TopupSaga::Doomed { topup_id } => TopupStep::Perform(
                TopupCommand::FindTopup(*topup_id),
            ),
            TopupSaga::Deleting { record } => TopupStep::Perform(
                TopupCommand::DeleteTopup(record.topup_id),
            ),
            TopupSaga::Finished { result } => TopupStep::Finish(
                match result {
                    Ok(record) => Ok(record.clone()),
                    Err(error) => Err(*error),
                },
            ),
        }
    }

    /// Moves on with the answer to the call that the machine waited for.
    pub fn advance(self, reply: TopupReply) -> (saga: TopupSaga)
        ensures
            saga == self.next(reply),
            saga.remaining() < self.remaining() || self is Finished,
    {
        match self {
            TopupSaga::Owner { record, amending } => match reply {
                TopupReply::User(true) => if amending {
                    TopupSaga::Existing { revised: record }
                } else {
                    TopupSaga::Writing { write: TopupWrite::Create(record) }
                },
                _ => TopupSaga::Finished {
                    result: Err(AppError::NotFound(Missing::User(record.user_id))),
                },
            },
            TopupSaga::Existing { revised } => match reply {
                TopupReply::Topup(Some(previous)) => TopupSaga::Writing {
                    write: TopupWrite::Amend { revised, previous },
                },
                TopupReply::Topup(None) => TopupSaga::Finished {
                    result: Err(AppError::NotFound(Missing::Topup(revised.topup_id))),
                },
                _ => TopupSaga::Finished {
                    result: Err(AppError::StorageError(Stage::LedgerRead)),
                },
            },
            TopupSaga::Writing { write } => match reply {
                TopupReply::Topup(Some(record)) => {
                    let undo = match write {
                        TopupWrite::Create(_) => TopupUndo::Delete(record.topup_id),
                        TopupWrite::Amend { previous, .. } => TopupUndo::Restore(previous),
                    };
                    TopupSaga::Reading { record, undo }
                },
                _ => TopupSaga::Finished {
                    result: Err(AppError::StorageError(Stage::LedgerWrite)),
                },
            },
            TopupSaga::Reading { record, undo } => match reply {
                TopupReply::Balance(found) => balance_read(record, undo, found),
                _ => TopupSaga::Compensate {
                    undo,
                    error: AppError::StorageError(Stage::BalanceRead),
                },
            },
            TopupSaga::Crediting { record, undo, .. } => match reply {
                TopupReply::Done => TopupSaga::Finished { result: Ok(record) },
                _ => TopupSaga::Compensate {
                    undo,
                    error: AppError::StorageError(Stage::BalanceWrite),
                },
            },
            TopupSaga::Compensate { error, .. } => TopupSaga::Finished { result: Err(error) },
            TopupSaga::Doomed { topup_id } => match reply {
                TopupReply::Topup(Some(record)) => TopupSaga::Deleting { record },
                TopupReply::Topup(None) => TopupSaga::Finished {
                    result: Err(AppError::NotFound(Missing::Topup(topup_id))),
                },
                _ => TopupSaga::Finished {
                    result: Err(AppError::StorageError(Stage::LedgerRead)),
                },
            },
            TopupSaga::Deleting { record } => match reply {
                TopupReply::Done => TopupSaga::Finished { result: Ok(record) },
                _ => TopupSaga::Finished {
                    result: Err(AppError::StorageError(Stage::LedgerWrite)),
                },
            },
            TopupSaga::Finished { result } => TopupSaga::Finished { result },
        }
    }
}

/// The amount by which an operation raises the balance.
pub fn raise(record: &TopupRecord, undo: &TopupUndo) -> (amount: i64)
    ensures
        amount == topup_delta(*record, *undo),
{
    match undo {
        TopupUndo::Delete(_) => record.topup_amount as i64,
        TopupUndo::Restore(previous) => record.topup_amount as i64 - previous.topup_amount as i64,
    }
}

/// Decides what follows the reading of the user's balance: the write of the
/// raised total; for a new top-up of a user without a balance, the opening of
/// one with the amount; or, where the total cannot be held or an amended
/// top-up finds no balance, the taking back of the ledger write.
pub fn balance_read(record: TopupRecord, undo: TopupUndo, found: Option<Balance>) -> (saga: TopupSaga)
    ensures
        saga == after_balance(record, undo, found),
{
    match found {
        Some(balance) => {
            let total: i64 = balance.total_balance as i64 + raise(&record, &undo);
            if total < i32::MIN as i64 || total > i32::MAX as i64 {
                TopupSaga::Compensate { undo, error: AppError::StorageError(Stage::BalanceLimit) }
            } else {
                TopupSaga::Crediting {
                    record,
                    undo,
                    balance: Balance {
                        user_id: balance.user_id,
                        total_balance: total as i32,
                        withdraw_amount: balance.withdraw_amount,
                        withdraw_time: balance.withdraw_time,
                    },
                    opening: false,
                }
            }
        },
        None => {
            let creating = match undo {
                TopupUndo::Delete(_) => true,
                TopupUndo::Restore(_) => false,
            };
            if creating {
                let balance = Balance {
                    user_id: record.user_id,
                    total_balance: record.topup_amount,
                    withdraw_amount: None,
                    withdraw_time: None,
                };
                TopupSaga::Crediting { record, undo, balance, opening: true }
            } else {
                TopupSaga::Compensate {
                    undo,
                    error: AppError::NotFound(Missing::Balance(record.user_id)),
                }
            }
        },
    }
}

impl TopupSaga {
    /// Whether the operation's write to the ledger has gone through.
    pub open spec fn past_ledger_write(self) -> bool {
        self is Reading || self is Crediting || self is Compensate
    }
}

/// The ledger is written before the balance is touched: a machine asks for a
/// balance only in a state that lies past its write to the ledger, and the
/// only way into such a state is a write to the ledger that went through.
pub proof fn lemma_ledger_is_written_first(saga: TopupSaga, reply: TopupReply)
    ensures
        saga.step() matches TopupStep::Perform(command) && (command is FindBalance || command
            is CreateBalance || command is UpdateBalance) ==> saga.past_ledger_write(),
        saga.next(reply).past_ledger_write() ==> saga.past_ledger_write() || (saga is Writing
            && reply matches TopupReply::Topup(Some(_))),
{
}

/// A compensation that fails does not hide why the operation failed: whatever
/// the ledger replies to the compensating call, the machine finishes with the
/// error that caused the compensation.
pub proof fn lemma_compensation_keeps_error(undo: TopupUndo, error: AppError, reply: TopupReply)
    ensures
        (TopupSaga::Compensate { undo, error }).next(reply) == (TopupSaga::Finished {
            result: Err(error),
        }),
{
}

/// A machine that has finished stays finished, with the same result.
pub proof fn lemma_finished_is_final(result: Result<TopupRecord, AppError>, reply: TopupReply)
    ensures
        (TopupSaga::Finished { result }).next(reply) == (TopupSaga::Finished { result }),
        (TopupSaga::Finished { result }).step() == TopupStep::Finish(result),
{
}

} // verus!
