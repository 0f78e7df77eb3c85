//! Creating, amending and deleting a transfer between two users.
//!
//! The ledger is written first. Then the sender's balance is lowered and the
//! receiver's raised by the same amount. Whatever fails after the ledger write
//! is answered by taking back, newest first, what was written so far: the
//! sender's balance as it was read, then the ledger record.

use crate::domain::{
    holdable, Balance, CreateTransferRequest, TransferRecord, UpdateTransferRequest,
};
use crate::errors::{AppError, Missing, Stage};
use vstd::prelude::*;

verus! {

/// A storage call that the machine waits for.
#[derive(Clone, Copy, PartialEq, Eq, Debug)]
pub enum TransferCommand {
    /// Does the user exist?
    FindUser(i32),
    /// Record the transfer under a new key.
    CreateTransfer(TransferRecord),
    /// Read the transfer with this key.
    FindTransfer(i32),
    /// Write the transfer over the one with its key.
    UpdateTransfer(TransferRecord),
    /// Delete the transfer with this key.
    DeleteTransfer(i32),
    /// Read the balance of the user.
    FindBalance(i32),
    /// Write the balance over the one of its user.
    UpdateBalance(Balance),
}

/// How a storage call went.
#[derive(Clone, Copy, PartialEq, Eq, Debug)]
pub enum TransferReply {
    /// The call failed.
    Failed,
    /// Whether the user exists.
    User(bool),
    /// The transfer that was read, created or written, if any.
    Transfer(Option<TransferRecord>),
    /// The balance that was read, if any.
    Balance(Option<Balance>),
    /// The write went through.
    Done,
}

/// What the caller is to do next.
#[derive(Clone, Copy, PartialEq, Eq, Debug)]
pub enum TransferStep {
    /// Make the call and report how it went.
    Perform(TransferCommand),
    /// Stop: this is the operation's result.
    Finish(Result<TransferRecord, AppError>),
}

/// How to take back a write to the ledger.
#[derive(Clone, Copy, PartialEq, Eq, Debug)]
pub enum LedgerUndo {
    /// Delete the record that was created.
    Delete(i32),
    /// Write the record back as it was.
    Restore(TransferRecord),
}

/// The write to the ledger that an operation starts with.
#[derive(Clone, Copy, PartialEq, Eq, Debug)]
pub enum LedgerWrite {
    /// Record a new transfer.
    Create(TransferRecord),
    /// Write `revised` over `previous`.
    Amend { revised: TransferRecord, previous: TransferRecord },
}

/// Where an operation on a transfer stands.
#[derive(Clone, Copy, PartialEq, Eq, Debug)]
pub enum TransferSaga {
    /// Asked whether the sender exists.
    Sender { record: TransferRecord, amending: bool },
    /// Asked whether the receiver exists.
    Receiver { record: TransferRecord, amending: bool },
    /// Asked for the transfer that is to be amended.
    Existing { revised: TransferRecord },
    /// Asked for the write to the ledger.
    Writing { write: LedgerWrite },
    /// Asked for the sender's balance.
    SenderBalance { record: TransferRecord, undo: LedgerUndo },
    /// Asked to lower the sender's balance to `total`.
    Debit { record: TransferRecord, undo: LedgerUndo, sender: Balance, total: i32 },
    /// Asked for the receiver's balance.
    ReceiverBalance { record: TransferRecord, undo: LedgerUndo, sender: Balance },
    /// Asked to raise the receiver's balance to `total`.
    Credit {
        record: TransferRecord,
        undo: LedgerUndo,
        sender: Balance,
        receiver: Balance,
        total: i32,
    },
    /// Taking back what was written: first the sender's balance, where one was
    /// written, then the ledger record. `error` is what made the operation fail.
    Compensate { restore: Option<Balance>, undo: LedgerUndo, error: AppError },
    /// Asked for the transfer that is to be deleted.
    Doomed { transfer_id: i32 },
    /// Asked to delete the transfer.
    Deleting { record: TransferRecord },
    /// Nothing is left to do.
    Finished { result: Result<TransferRecord, AppError> },
}

/// The amount by which an operation moves the balances: the whole amount of a
/// new transfer, and for an amended one the change of its amount.
pub open spec fn delta(record: TransferRecord, undo: LedgerUndo) -> int {
    match undo {
        LedgerUndo::Delete(_) => record.transfer_amount as int,
        LedgerUndo::Restore(previous) => record.transfer_amount - previous.transfer_amount,
    }
}

/// The machine's state once it has read the sender's balance.
pub open spec fn after_sender_balance(
    record: TransferRecord,
    undo: LedgerUndo,
    found: Option<Balance>,
) -> TransferSaga {
    match found {
        None => TransferSaga::Compensate {
            restore: None,
            undo,
            error: AppError::NotFound(Missing::Balance(record.transfer_from)),
        },
        Some(sender) => if undo is Delete && sender.total_balance < record.transfer_amount {
            TransferSaga::Compensate {
                restore: None,
                undo,
                error: AppError::InsufficientFunds {
                    user_id: record.transfer_from,
                    balance: sender.total_balance,
                    amount: record.transfer_amount,
                },
            }
        } else if !holdable(sender.total_balance - delta(record, undo)) {
            TransferSaga::Compensate {
                restore: None,
                undo,
                error: AppError::StorageError(Stage::BalanceLimit),
            }
        } else {
            TransferSaga::Debit {
                record,
                undo,
                sender,
                total: (sender.total_balance - delta(record, undo)) as i32,
            }
        },
    }
}

/// The machine's state once it has read the receiver's balance.
pub open spec fn after_receiver_balance(
    record: TransferRecord,
    undo: LedgerUndo,
    sender: Balance,
    found: Option<Balance>,
) -> TransferSaga {
    match found {
        None => TransferSaga::Compensate {
            restore: Some(sender),
            undo,
            error: AppError::NotFound(Missing::Balance(record.transfer_to)),
        },
        Some(receiver) => if !holdable(receiver.total_balance + delta(record, undo)) {
            TransferSaga::Compensate {
                restore: Some(sender),
                undo,
                error: AppError::StorageError(Stage::BalanceLimit),
            }
        } else {
            TransferSaga::Credit {
                record,
                undo,
                sender,
                receiver,
                total: (receiver.total_balance + delta(record, undo)) as i32,
            }
        },
    }
}

impl TransferSaga {
    /// The machine for a new transfer. An invalid request finishes at once.
    pub open spec fn create(input: CreateTransferRequest) -> TransferSaga {
        match input.verdict() {
            Err(problem) => TransferSaga::Finished {
                result: Err(AppError::ValidationError(problem)),
            },
            Ok(_) => TransferSaga::Sender { record: input.draft(), amending: false },
        }
    }

    /// The machine for amending a transfer. An invalid request finishes at once.
    pub open spec fn update(input: UpdateTransferRequest) -> TransferSaga {
        match input.verdict() {
            Err(problem) => TransferSaga::Finished {
                result: Err(AppError::ValidationError(problem)),
            },
            Ok(_) => TransferSaga::Sender { record: input.revised(), amending: true },
        }
    }

    /// The machine for deleting a transfer.
    pub open spec fn delete(transfer_id: i32) -> TransferSaga {
        TransferSaga::Doomed { transfer_id }
    }

    /// What the machine waits for in this state.
    pub open spec fn step(self) -> TransferStep {
        match self {
            TransferSaga::Sender { record, .. } => TransferStep::Perform(
                TransferCommand::FindUser(record.transfer_from),
            ),
            TransferSaga::Receiver { record, .. } => TransferStep::Perform(
                TransferCommand::FindUser(record.transfer_to),
            ),
            TransferSaga::Existing { revised } => TransferStep::Perform(
                TransferCommand::FindTransfer(revised.transfer_id),
            ),
            TransferSaga::Writing { write } => match write {
                LedgerWrite::Create(draft) => TransferStep::Perform(
                    TransferCommand::CreateTransfer(draft),
                ),
                LedgerWrite::Amend { revised, .. } => TransferStep::Perform(
                    TransferCommand::UpdateTransfer(revised),
                ),
            },
            TransferSaga::SenderBalance { record, .. } => TransferStep::Perform(
                TransferCommand::FindBalance(record.transfer_from),
            ),
            TransferSaga::Debit { sender, total, .. } => TransferStep::Perform(
                TransferCommand::UpdateBalance(sender.with_total(total)),
            ),
            TransferSaga::ReceiverBalance { record, .. } => TransferStep::Perform(
                TransferCommand::FindBalance(record.transfer_to),
            ),
            TransferSaga::Credit { receiver, total, .. } => TransferStep::Perform(
                TransferCommand::UpdateBalance(receiver.with_total(total)),
            ),
            TransferSaga::Compensate { restore, undo, .. } => match restore {
                Some(balance) => TransferStep::Perform(TransferCommand::UpdateBalance(balance)),
                None => match undo {
                    LedgerUndo::Delete(transfer_id) => TransferStep::Perform(
                        TransferCommand::DeleteTransfer(transfer_id),
                    ),
                    LedgerUndo::Restore(previous) => TransferStep::Perform(
                        TransferCommand::UpdateTransfer(previous),
                    ),
                },
            },
            TransferSaga::Doomed { transfer_id } => TransferStep::Perform(
                TransferCommand::FindTransfer(transfer_id),
            ),
            TransferSaga::Deleting { record } => TransferStep::Perform(
                TransferCommand::DeleteTransfer(record.transfer_id),
            ),
            TransferSaga::Finished { result } => TransferStep::Finish(result),
        }
    }

    /// The state that follows once the call that the machine waited for has
    /// been answered with `reply`. Any reply but the one that reports success
    /// counts as a failure of the call.
    pub open spec fn next(self, reply: TransferReply) -> TransferSaga {
        match self {
            TransferSaga::Sender { record, amending } => match reply {
                TransferReply::User(true) => TransferSaga::Receiver { record, amending },
                _ => TransferSaga::Finished {
                    result: Err(AppError::NotFound(Missing::User(record.transfer_from))),
                },
            },
            TransferSaga::Receiver { record, amending } => match reply {
                TransferReply::User(true) => if amending {
                    TransferSaga::Existing { revised: record }
                } else {
                    TransferSaga::Writing { write: LedgerWrite::Create(record) }
                },
                _ => TransferSaga::Finished {
                    result: Err(AppError::NotFound(Missing::User(record.transfer_to))),
                },
            },
            TransferSaga::Existing { revised } => match reply {
                TransferReply::Transfer(Some(previous)) => TransferSaga::Writing {
                    write: LedgerWrite::Amend { revised, previous },
                },
                TransferReply::Transfer(None) => TransferSaga::Finished {
                    result: Err(AppError::NotFound(Missing::Transfer(revised.transfer_id))),
                },
                _ => TransferSaga::Finished {
                    result: Err(AppError::StorageError(Stage::LedgerRead)),
                },
            },
            TransferSaga::Writing { write } => match reply {
                TransferReply::Transfer(Some(record)) => TransferSaga::SenderBalance {
                    record,
                    undo: match write {
                        LedgerWrite::Create(_) => LedgerUndo::Delete(record.transfer_id),
                        LedgerWrite::Amend { previous, .. } => LedgerUndo::Restore(previous),
                    },
                },
                _ => TransferSaga::Finished {
                    result: Err(AppError::StorageError(Stage::LedgerWrite)),
                },
            },
            TransferSaga::SenderBalance { record, undo } => match reply {
                TransferReply::Balance(found) => after_sender_balance(record, undo, found),
                _ => TransferSaga::Compensate {
                    restore: None,
                    undo,
                    error: AppError::StorageError(Stage::BalanceRead),
                },
            },
            TransferSaga::Debit { record, undo, sender, .. } => match reply {
                TransferReply::Done => TransferSaga::ReceiverBalance { record, undo, sender },
                _ => TransferSaga::Compensate {
                    restore: None,
                    undo,
                    error: AppError::StorageError(Stage::BalanceWrite),
                },
            },
            TransferSaga::ReceiverBalance { record, undo, sender } => match reply {
                TransferReply::Balance(found) => after_receiver_balance(
                    record,
                    undo,
                    sender,
                    found,
                ),
                _ => TransferSaga::Compensate {
                    restore: Some(sender),
                    undo,
                    error: AppError::StorageError(Stage::BalanceRead),
                },
            },
            TransferSaga::Credit { record, undo, sender, .. } => match reply {
                TransferReply::Done => TransferSaga::Finished { result: Ok(record) },
                _ => TransferSaga::Compensate {
                    restore: Some(sender),
                    undo,
                    error: AppError::StorageError(Stage::BalanceWrite),
                },
            },
            TransferSaga::Compensate { restore, undo, error } => match restore {
                Some(_) => TransferSaga::Compensate { restore: None, undo, error },
                None => TransferSaga::Finished { result: Err(error) },
            },
            TransferSaga::Doomed { transfer_id } => match reply {
                TransferReply::Transfer(Some(record)) => TransferSaga::Deleting { record },
                TransferReply::Transfer(None) => TransferSaga::Finished {
                    result: Err(AppError::NotFound(Missing::Transfer(transfer_id))),
                },
                _ => TransferSaga::Finished {
                    result: Err(AppError::StorageError(Stage::LedgerRead)),
                },
            },
            TransferSaga::Deleting { record } => match reply {
                TransferReply::Done => TransferSaga::Finished { result: Ok(record) },
                _ => TransferSaga::Finished {
                    result: Err(AppError::StorageError(Stage::LedgerWrite)),
                },
            },
            TransferSaga::Finished { result } => TransferSaga::Finished { result },
        }
    }

    /// An upper bound on the number of calls that the machine still asks for.
    pub open spec fn remaining(self) -> nat {
        match self {
            TransferSaga::Sender { .. } => 10,
            TransferSaga::Receiver { .. } => 9,
            TransferSaga::Existing { .. } => 8,
            TransferSaga::Writing { .. } => 7,
            TransferSaga::SenderBalance { .. } => 6,
            TransferSaga::Debit { .. } => 5,
            TransferSaga::ReceiverBalance { .. } => 4,
            TransferSaga::Credit { .. } => 3,
            TransferSaga::Compensate { restore: Some(_), .. } => 2,
            TransferSaga::Compensate { restore: None, .. } => 1,
            TransferSaga::Doomed { .. } => 2,
            TransferSaga::Deleting { .. } => 1,
            TransferSaga::Finished { .. } => 0,
        }
    }

    /// Starts a new transfer.
    pub fn begin_create(input: &CreateTransferRequest) -> (saga: TransferSaga)
        ensures
            saga == TransferSaga::create(*input),
    {
        match input.validate() {
            Err(problem) => TransferSaga::Finished {
                result: Err(AppError::ValidationError(problem)),
            },
            Ok(_) => TransferSaga::Sender { record: input.to_draft(), amending: false },
        }
    }

    /// Starts amending a transfer.
    pub fn begin_update(input: &UpdateTransferRequest) -> (saga: TransferSaga)
        ensures
            saga == TransferSaga::update(*input),
    {
        match input.validate() {
            Err(problem) => TransferSaga::Finished {
                result: Err(AppError::ValidationError(problem)),
            },
            Ok(_) => TransferSaga::Sender { record: input.to_revised(), amending: true },
        }
    }

    /// Starts deleting a transfer.
    pub fn begin_delete(transfer_id: i32) -> (saga: TransferSaga)
        ensures
            saga == TransferSaga::delete(transfer_id),
    {
        TransferSaga::Doomed { transfer_id }
    }

    /// The call that the machine waits for, or its result.
    pub fn pending(&self) -> (step: TransferStep)
        ensures
            step == self.step(),
    {
        match *self {
            TransferSaga::Sender { record, .. } => TransferStep::Perform(
                TransferCommand::FindUser(record.transfer_from),
            ),
            TransferSaga::Receiver { record, .. } => TransferStep::Perform(
                TransferCommand::FindUser(record.transfer_to),
            ),
            TransferSaga::Existing { revised } => TransferStep::Perform(
                TransferCommand::FindTransfer(revised.transfer_id),
            ),
            TransferSaga::Writing { write } => match write {
                LedgerWrite::Create(draft) => TransferStep::Perform(
                    TransferCommand::CreateTransfer(draft),
                ),
                LedgerWrite::Amend { revised, .. } => TransferStep::Perform(
                    TransferCommand::UpdateTransfer(revised),
                ),
            },
            TransferSaga::SenderBalance { record, .. } => TransferStep::Perform(
                TransferCommand::FindBalance(record.transfer_from),
            ),
            TransferSaga::Debit { sender, total, .. } => TransferStep::Perform(
                TransferCommand::UpdateBalance(with_total(sender, total)),
            ),
            TransferSaga::ReceiverBalance { record, .. } => TransferStep::Perform(
                TransferCommand::FindBalance(record.transfer_to),
            ),
            TransferSaga::Credit { receiver, total, .. } => TransferStep::Perform(
                TransferCommand::UpdateBalance(with_total(receiver, total)),
            ),
            TransferSaga::Compensate { restore, undo, .. } => match restore {
                Some(balance) => TransferStep::Perform(TransferCommand::UpdateBalance(balance)),
                None => match undo {
                    LedgerUndo::Delete(transfer_id) => TransferStep::Perform(
                        TransferCommand::DeleteTransfer(transfer_id),
                    ),
                    LedgerUndo::Restore(previous) => TransferStep::Perform(
                        TransferCommand::UpdateTransfer(previous),
                    ),
                },
            },
            TransferSaga::Doomed { transfer_id } => TransferStep::Perform(
                TransferCommand::FindTransfer(transfer_id),
            ),
            TransferSaga::Deleting { record } => TransferStep::Perform(
                TransferCommand::DeleteTransfer(record.transfer_id),
            ),
            TransferSaga::Finished { result } => TransferStep::Finish(result),
        }
    }

    /// Moves on with the answer to the call that the machine waited for.
    pub fn advance(self, reply: TransferReply) -> (saga: TransferSaga)
        ensures
            saga == self.next(reply),
            saga.remaining() < self.remaining() || self is Finished,
    {
        match self {
            TransferSaga::Sender { record, amending } => match reply {
                TransferReply::User(true) => TransferSaga::Receiver { record, amending },
                _ => TransferSaga::Finished {
                    result: Err(AppError::NotFound(Missing::User(record.transfer_from))),
                },
            },
            TransferSaga::Receiver { record, amending } => match reply {
                TransferReply::User(true) => if amending {
                    TransferSaga::Existing { revised: record }
                } else {
                    TransferSaga::Writing { write: LedgerWrite::Create(record) }
                },
                _ => TransferSaga::Finished {
                    result: Err(AppError::NotFound(Missing::User(record.transfer_to))),
                },
            },
            TransferSaga::Existing { revised } => match reply {
                TransferReply::Transfer(Some(previous)) => TransferSaga::Writing {
                    write: LedgerWrite::Amend { revised, previous },
                },
                TransferReply::Transfer(None) => TransferSaga::Finished {
                    result: Err(AppError::NotFound(Missing::Transfer(revised.transfer_id))),
                },
                _ => TransferSaga::Finished {
                    result: Err(AppError::StorageError(Stage::LedgerRead)),
                },
            },
            TransferSaga::Writing { write } => match reply {
                TransferReply::Transfer(Some(record)) => TransferSaga::SenderBalance {
                    record,
                    undo: match write {
                        LedgerWrite::Create(_) => LedgerUndo::Delete(record.transfer_id),
                        LedgerWrite::Amend { previous, .. } => LedgerUndo::Restore(previous),
                    },
                },
                _ => TransferSaga::Finished {
                    result: Err(AppError::StorageError(Stage::LedgerWrite)),
                },
            },
            TransferSaga::SenderBalance { record, undo } => match reply {
                TransferReply::Balance(found) => sender_balance_read(record, undo, found),
                _ => TransferSaga::Compensate {
                    restore: None,
                    undo,
                    error: AppError::StorageError(Stage::BalanceRead),
                },
            },
            TransferSaga::Debit { record, undo, sender, .. } => match reply {
                TransferReply::Done => TransferSaga::ReceiverBalance { record, undo, sender },
                _ => TransferSaga::Compensate {
                    restore: None,
                    undo,
                    error: AppError::StorageError(Stage::BalanceWrite),
                },
            },
            TransferSaga::ReceiverBalance { record, undo, sender } => match reply {
                TransferReply::Balance(found) => receiver_balance_read(
                    record,
                    undo,
                    sender,
                    found,
                ),
                _ => TransferSaga::Compensate {
                    restore: Some(sender),
                    undo,
                    error: AppError::StorageError(Stage::BalanceRead),
                },
            },
            TransferSaga::Credit { record, undo, sender, .. } => match reply {
                TransferReply::Done => TransferSaga::Finished { result: Ok(record) },
                _ => TransferSaga::Compensate {
                    restore: Some(sender),
                    undo,
                    error: AppError::StorageError(Stage::BalanceWrite),
                },
            },
            TransferSaga::Compensate { restore, undo, error } => match restore {
                Some(_) => TransferSaga::Compensate { restore: None, undo, error },
                None => TransferSaga::Finished { result: Err(error) },
            },
            TransferSaga::Doomed { transfer_id } => match reply {
                TransferReply::Transfer(Some(record)) => TransferSaga::Deleting { record },
                TransferReply::Transfer(None) => TransferSaga::Finished {
                    result: Err(AppError::NotFound(Missing::Transfer(transfer_id))),
                },
                _ => TransferSaga::Finished {
                    result: Err(AppError::StorageError(Stage::LedgerRead)),
                },
            },
            TransferSaga::Deleting { record } => match reply {
                TransferReply::Done => TransferSaga::Finished { result: Ok(record) },
                _ => TransferSaga::Finished {
                    result: Err(AppError::StorageError(Stage::LedgerWrite)),
                },
            },
            TransferSaga::Finished { result } => TransferSaga::Finished { result },
        }
    }
}

/// See [`Balance::with_total`].
pub fn with_total(balance: Balance, total_balance: i32) -> (changed: Balance)
    ensures
        changed == balance.with_total(total_balance),
{
    Balance {
        user_id: balance.user_id,
        total_balance,
        withdraw_amount: balance.withdraw_amount,
        withdraw_time: balance.withdraw_time,
    }
}

/// The amount by which an operation moves the balances.
pub fn movement(record: &TransferRecord, undo: &LedgerUndo) -> (amount: i64)
    ensures
        amount == delta(*record, *undo),
{
    match undo {
        LedgerUndo::Delete(_) => record.transfer_amount as i64,
        LedgerUndo::Restore(previous) => record.transfer_amount as i64
            - previous.transfer_amount as i64,
    }
}

/// Decides what follows the reading of the sender's balance: the debit, or,
/// where there is no balance, it does not cover a new transfer, or the new
/// total cannot be held, the taking back of the ledger write.
pub fn sender_balance_read(record: TransferRecord, undo: LedgerUndo, found: Option<Balance>) -> (saga:
    TransferSaga)
    ensures
        saga == after_sender_balance(record, undo, found),
{
    match found {
        None => TransferSaga::Compensate {
            restore: None,
            undo,
            error: AppError::NotFound(Missing::Balance(record.transfer_from)),
        },
        Some(sender) => {
            let guarded = match undo {
                LedgerUndo::Delete(_) => true,
                LedgerUndo::Restore(_) => false,
            };
            let total: i64 = sender.total_balance as i64 - movement(&record, &undo);
            if guarded && sender.total_balance < record.transfer_amount {
                TransferSaga::Compensate {
                    restore: None,
                    undo,
                    error: AppError::InsufficientFunds {
                        user_id: record.transfer_from,
                        balance: sender.total_balance,
                        amount: record.transfer_amount,
                    },
                }
            } else if total < i32::MIN as i64 || total > i32::MAX as i64 {
                TransferSaga::Compensate {
                    restore: None,
                    undo,
                    error: AppError::StorageError(Stage::BalanceLimit),
                }
            } else {
                TransferSaga::Debit { record, undo, sender, total: total as i32 }
            }
        },
    }
}

/// Decides what follows the reading of the receiver's balance: the credit, or,
/// where there is no balance or the new total cannot be held, the taking back
/// of the debit and of the ledger write.
pub fn receiver_balance_read(
    record: TransferRecord,
    undo: LedgerUndo,
    sender: Balance,
    found: Option<Balance>,
) -> (saga: TransferSaga)
    ensures
        saga == after_receiver_balance(record, undo, sender, found),
{
    match found {
        None => TransferSaga::Compensate {
            restore: Some(sender),
            undo,
            error: AppError::NotFound(Missing::Balance(record.transfer_to)),
        },
        Some(receiver) => {
            let total: i64 = receiver.total_balance as i64 + movement(&record, &undo);
            if total < i32::MIN as i64 || total > i32::MAX as i64 {
                TransferSaga::Compensate {
                    restore: Some(sender),
                    undo,
                    error: AppError::StorageError(Stage::BalanceLimit),
                }
            } else {
                TransferSaga::Credit { record, undo, sender, receiver, total: total as i32 }
            }
        },
    }
}

impl TransferSaga {
    /// Whether the operation's write to the ledger has gone through.
    pub open spec fn past_ledger_write(self) -> bool {
        self is SenderBalance || self is Debit || self is ReceiverBalance || self is Credit
            || self is Compensate
    }
}

/// The ledger is written before any balance is touched: a machine asks for a
/// balance only in a state that lies past its write to the ledger, and the
/// only way into such a state is a write to the ledger that went through.
pub proof fn lemma_ledger_is_written_first(saga: TransferSaga, reply: TransferReply)
    ensures
        saga.step() matches TransferStep::Perform(command) && (command is FindBalance || command
            is UpdateBalance) ==> saga.past_ledger_write(),
        saga.next(reply).past_ledger_write() ==> saga.past_ledger_write() || (saga is Writing
            && reply matches TransferReply::Transfer(Some(_))),
{
}

/// A compensation that fails does not hide why the operation failed: from a
/// compensating state on, whatever the stores reply, the machine stays with
/// the error that caused the compensation, and that error is its result.
pub proof fn lemma_compensation_keeps_error(
    restore: Option<Balance>,
    undo: LedgerUndo,
    error: AppError,
    reply: TransferReply,
)
    ensures
        match (TransferSaga::Compensate { restore, undo, error }).next(reply) {
            TransferSaga::Compensate { error: kept, .. } => kept == error,
            TransferSaga::Finished { result } => result == Err::<TransferRecord, AppError>(error),
            _ => false,
        },
{
}

/// A machine that has finished stays finished, with the same result.
pub proof fn lemma_finished_is_final(result: Result<TransferRecord, AppError>, reply: TransferReply)
    ensures
        (TransferSaga::Finished { result }).next(reply) == (TransferSaga::Finished { result }),
        (TransferSaga::Finished { result }).step() == TransferStep::Finish(result),
{
}

} // verus!
