//! What the transfer operations do to the stores, and what holds of every
//! run of them.

use crate::domain::{
    holdable, total_of, Balance, CreateTransferRequest, TransferRecord, UpdateTransferRequest,
};
use crate::errors::{AppError, Invalid, Missing, Stage};
use crate::saga::transfer::{
    delta, LedgerUndo, TransferCommand, TransferReply, TransferSaga, TransferStep,
};
use crate::store::{
    appended, at_most_one_fails, calm, distinct_keys, fails_at, fails_next, index_of, lemma_create,
    lemma_delete, lemma_delete_undoes_create, lemma_lookup_update, lemma_replace, lemma_update,
    lemma_update_undoes_update, lookup, overwritten, Entry, LedgerView, TableView,
};
use vstd::prelude::*;

verus! {

/// What the transfer operations see of the stores.
pub struct TransferWorld {
    pub users: Set<i32>,
    pub balances: TableView<Balance>,
    pub transfers: LedgerView<TransferRecord>,
}

impl TransferWorld {
    /// Both stores are well formed.
    pub open spec fn wf(self) -> bool {
        &&& self.balances.wf()
        &&& self.transfers.wf()
    }

    /// How the stores answer a call, and what they hold afterwards.
    pub open spec fn perform(self, command: TransferCommand) -> (TransferWorld, TransferReply) {
        match command {
            TransferCommand::FindUser(user_id) => (
                self,
                TransferReply::User(self.users.contains(user_id)),
            ),
            TransferCommand::CreateTransfer(draft) => {
                let (transfers, made) = self.transfers.create(draft);
                (
                    TransferWorld { users: self.users, balances: self.balances, transfers },
                    match made {
                        Ok(record) => TransferReply::Transfer(Some(record)),
                        Err(_) => TransferReply::Failed,
                    },
                )
            },
            TransferCommand::FindTransfer(transfer_id) => {
                let (transfers, found) = self.transfers.get(transfer_id);
                (
                    TransferWorld { users: self.users, balances: self.balances, transfers },
                    match found {
                        Ok(record) => TransferReply::Transfer(record),
                        Err(_) => TransferReply::Failed,
                    },
                )
            },
            TransferCommand::UpdateTransfer(record) => {
                let (transfers, made) = self.transfers.update(record);
                (
                    TransferWorld { users: self.users, balances: self.balances, transfers },
                    match made {
                        Ok(record) => TransferReply::Transfer(Some(record)),
                        Err(_) => TransferReply::Failed,
                    },
                )
            },
            TransferCommand::DeleteTransfer(transfer_id) => {
                let (transfers, done) = self.transfers.delete(transfer_id);
                (
                    TransferWorld { users: self.users, balances: self.balances, transfers },
                    match done {
                        Ok(_) => TransferReply::Done,
                        Err(_) => TransferReply::Failed,
                    },
                )
            },
            TransferCommand::FindBalance(user_id) => {
                let (balances, found) = self.balances.get(user_id);
                (
                    TransferWorld { users: self.users, balances, transfers: self.transfers },
                    match found {
                        Ok(balance) => TransferReply::Balance(balance),
                        Err(_) => TransferReply::Failed,
                    },
                )
            },
            TransferCommand::UpdateBalance(balance) => {
                let (balances, done) = self.balances.replace(balance);
                (
                    TransferWorld { users: self.users, balances, transfers: self.transfers },
                    match done {
                        Ok(_) => TransferReply::Done,
                        Err(_) => TransferReply::Failed,
                    },
                )
            },
        }
    }

    /// Where the stores end up, and with what result, when the machine `saga`
    /// is driven against them until it finishes.
    pub open spec fn run(self, saga: TransferSaga) -> (TransferWorld, Result<TransferRecord, AppError>)
        decreases saga.remaining(),
    {
        match saga.step() {
            TransferStep::Finish(result) => (self, result),
            TransferStep::Perform(command) => {
                let (world, reply) = self.perform(command);
                world.run(saga.next(reply))
            },
        }
    }

    /// Whether, when the machine `saga` is driven against the stores, every
    /// call that takes something back is answered: no compensation fails.
    pub open spec fn settles(self, saga: TransferSaga) -> bool
        decreases saga.remaining(),
    {
        match saga.step() {
            TransferStep::Finish(_) => true,
            TransferStep::Perform(command) => {
                let (world, reply) = self.perform(command);
                &&& saga is Compensate ==> reply !is Failed
                &&& world.settles(saga.next(reply))
            },
        }
    }

    /// The same balances and the same transfers, whatever became of the
    /// schedules of failures and of the next key.
    pub open spec fn same_rows(self, other: TransferWorld) -> bool {
        &&& self.balances.rows == other.balances.rows
        &&& self.transfers.rows() == other.transfers.rows()
    }
}

/// `after` is `before` with `amount` moved from one user's total to another's:
/// both had a balance, both new totals can be held, nothing else of the two
/// balances changed, and no other balance changed at all.
pub open spec fn moved(
    before: Seq<Balance>,
    after: Seq<Balance>,
    from: i32,
    to: i32,
    amount: int,
) -> bool {
    &&& lookup(before, from) is Some
    &&& lookup(before, to) is Some
    &&& holdable(total_of(before, from) - amount)
    &&& holdable(total_of(before, to) + amount)
    &&& lookup(after, from) == Some(
        lookup(before, from)->Some_0.with_total((total_of(before, from) - amount) as i32),
    )
    &&& lookup(after, to) == Some(
        lookup(before, to)->Some_0.with_total((total_of(before, to) + amount) as i32),
    )
    &&& forall|user_id: i32|
        user_id != from && user_id != to ==> #[trigger] lookup(after, user_id) == lookup(
            before,
            user_id,
        )
}

/// Moving an amount between two users leaves the sum of their totals as it
/// was.
pub proof fn lemma_moved_conserves(
    before: Seq<Balance>,
    after: Seq<Balance>,
    from: i32,
    to: i32,
    amount: int,
)
    requires
        moved(before, after, from, to, amount),
        from != to,
    ensures
        total_of(after, from) == total_of(before, from) - amount,
        total_of(after, to) == total_of(before, to) + amount,
        total_of(after, from) + total_of(after, to) == total_of(before, from) + total_of(
            before,
            to,
        ),
{
}

/// The ledger `now` is the ledger `before` with `record` written to it, in
/// the way that `undo` takes back.
pub open spec fn written(
    before: Seq<TransferRecord>,
    now: Seq<TransferRecord>,
    record: TransferRecord,
    undo: LedgerUndo,
) -> bool {
    match undo {
        LedgerUndo::Delete(transfer_id) => transfer_id == record.transfer_id && appended(
            before,
            now,
            record,
        ),
        LedgerUndo::Restore(previous) => overwritten(before, now, record, previous),
    }
}

/// Taking back the ledger write reports the error that caused it, touches no
/// balance and, where the ledger answers, leaves the ledger as it was before
/// the write.
pub proof fn lemma_ledger_undo(
    before: Seq<TransferRecord>,
    world: TransferWorld,
    record: TransferRecord,
    undo: LedgerUndo,
    error: AppError,
)
    requires
        distinct_keys(before),
        world.wf(),
        written(before, world.transfers.rows(), record, undo),
    ensures
        ({
            let saga = TransferSaga::Compensate { restore: None, undo, error };
            let (after, result) = world.run(saga);
            &&& after.wf()
            &&& after.users == world.users
            &&& after.transfers.next_id == world.transfers.next_id
            &&& result == Err::<TransferRecord, AppError>(error)
            &&& after.balances == world.balances
            &&& world.settles(saga) == !fails_next(world.transfers.faults())
            &&& world.settles(saga) ==> after.transfers.rows() == before
        }),
{
    let saga = TransferSaga::Compensate { restore: None, undo, error };
    match undo {
        LedgerUndo::Delete(transfer_id) => {
            lemma_delete_undoes_create(before, world.transfers, record);
            let (w1, r1) = world.perform(TransferCommand::DeleteTransfer(transfer_id));
            assert(world.run(saga) == w1.run(saga.next(r1)));
            assert(world.settles(saga) == (r1 !is Failed && w1.settles(saga.next(r1))));
            assert(w1.settles(saga.next(r1)));
        },
        LedgerUndo::Restore(previous) => {
            lemma_update_undoes_update(before, world.transfers, record, previous);
            let (w1, r1) = world.perform(TransferCommand::UpdateTransfer(previous));
            assert(world.run(saga) == w1.run(saga.next(r1)));
            assert(world.settles(saga) == (r1 !is Failed && w1.settles(saga.next(r1))));
            assert(w1.settles(saga.next(r1)));
        },
    }
}

/// Taking back the debit and then the ledger write reports the error that
/// caused it and, where both stores answer, leaves balances and ledger as they
/// were before the operation.
pub proof fn lemma_full_undo(
    before: TransferWorld,
    world: TransferWorld,
    record: TransferRecord,
    undo: LedgerUndo,
    sender: Balance,
    debited: Balance,
    error: AppError,
)
    requires
        before.wf(),
        world.wf(),
        written(before.transfers.rows(), world.transfers.rows(), record, undo),
        overwritten(before.balances.rows, world.balances.rows, debited, sender),
    ensures
        ({
            let saga = TransferSaga::Compensate { restore: Some(sender), undo, error };
            let (after, result) = world.run(saga);
            &&& after.wf()
            &&& after.users == world.users
            &&& after.transfers.next_id == world.transfers.next_id
            &&& result == Err::<TransferRecord, AppError>(error)
            &&& world.settles(saga) == (!fails_next(world.balances.faults) && !fails_next(
                world.transfers.faults(),
            ))
            &&& world.settles(saga) ==> after.same_rows(before)
        }),
{
    let saga = TransferSaga::Compensate { restore: Some(sender), undo, error };
    lemma_replace(world.balances, sender);
    crate::store::lemma_update_then_restore(before.balances.rows, debited, sender);
    let (w1, r1) = world.perform(TransferCommand::UpdateBalance(sender));
    let s1 = saga.next(r1);
    assert(world.run(saga) == w1.run(s1));
    assert(world.settles(saga) == (r1 !is Failed && w1.settles(s1)));
    assert(s1 == TransferSaga::Compensate { restore: None, undo, error });
    lemma_ledger_undo(before.transfers.rows(), w1, record, undo, error);
}

/// Whether the sender's balance allows the debit that `record` and `undo`
/// stand for: there is one, it covers a new transfer, and the lowered total
/// can be held.
pub open spec fn debitable(rows: Seq<Balance>, record: TransferRecord, undo: LedgerUndo) -> bool {
    &&& lookup(rows, record.transfer_from) is Some
    &&& undo is Delete ==> total_of(rows, record.transfer_from) >= record.transfer_amount
    &&& holdable(total_of(rows, record.transfer_from) - delta(record, undo))
}

/// Whether the receiver's balance allows the credit that `record` and `undo`
/// stand for: there is one, and the raised total can be held.
pub open spec fn creditable(rows: Seq<Balance>, record: TransferRecord, undo: LedgerUndo) -> bool {
    &&& lookup(rows, record.transfer_to) is Some
    &&& holdable(total_of(rows, record.transfer_to) + delta(record, undo))
}

/// Whether the balances allow the movement that `record` and `undo` stand
/// for.
pub open spec fn movable(rows: Seq<Balance>, record: TransferRecord, undo: LedgerUndo) -> bool {
    debitable(rows, record, undo) && creditable(rows, record, undo)
}

/// Why the balance phase fails, where it does: the first of its steps, in
/// their order, that does not go through.
pub open spec fn phase_error(
    rows: Seq<Balance>,
    faults: Seq<bool>,
    record: TransferRecord,
    undo: LedgerUndo,
) -> AppError {
    if fails_at(faults, 0) {
        AppError::StorageError(Stage::BalanceRead)
    } else if lookup(rows, record.transfer_from) is None {
        AppError::NotFound(Missing::Balance(record.transfer_from))
    } else if undo is Delete && total_of(rows, record.transfer_from) < record.transfer_amount {
        AppError::InsufficientFunds {
            user_id: record.transfer_from,
            balance: lookup(rows, record.transfer_from)->Some_0.total_balance,
            amount: record.transfer_amount,
        }
    } else if !holdable(total_of(rows, record.transfer_from) - delta(record, undo)) {
        AppError::StorageError(Stage::BalanceLimit)
    } else if fails_at(faults, 1) {
        AppError::StorageError(Stage::BalanceWrite)
    } else if fails_at(faults, 2) {
        AppError::StorageError(Stage::BalanceRead)
    } else if lookup(rows, record.transfer_to) is None {
        AppError::NotFound(Missing::Balance(record.transfer_to))
    } else if !holdable(total_of(rows, record.transfer_to) + delta(record, undo)) {
        AppError::StorageError(Stage::BalanceLimit)
    } else {
        AppError::StorageError(Stage::BalanceWrite)
    }
}

/// Whether no compensation of the balance phase fails. Up to the debit only
/// the ledger write has to be taken back, so the ledger has to answer. After
/// the debit the sender's balance has to be written back first: by the fourth
/// call to the balance store where the reading of the receiver's balance
/// stopped the phase, by the fifth where the credit did.
pub open spec fn phase_settles(
    rows: Seq<Balance>,
    faults: Seq<bool>,
    ledger_answers: bool,
    record: TransferRecord,
    undo: LedgerUndo,
) -> bool {
    if fails_at(faults, 0) || !debitable(rows, record, undo) || fails_at(faults, 1) {
        ledger_answers
    } else if fails_at(faults, 2) || !creditable(rows, record, undo) {
        !fails_at(faults, 3) && ledger_answers
    } else if fails_at(faults, 3) {
        !fails_at(faults, 4) && ledger_answers
    } else {
        true
    }
}

/// What the balance phase of an operation does, from the reading of the
/// sender's balance on. The ledger was written before (`written`) and the
/// balances are still those of `before`.
///
/// The phase succeeds exactly where the balance store answers four calls and
/// the balances are `movable`; then the amount has moved from the sender to
/// the receiver. Where it fails, the error is `phase_error`, and if no
/// compensation failed, balances and ledger are those of `before`. Which
/// compensations there are, and so when none of them fails, is what
/// `phase_settles` says.
pub proof fn lemma_balance_phase(
    before: TransferWorld,
    world: TransferWorld,
    record: TransferRecord,
    undo: LedgerUndo,
)
    requires
        before.wf(),
        world.wf(),
        world.balances.rows == before.balances.rows,
        written(before.transfers.rows(), world.transfers.rows(), record, undo),
        record.transfer_from != record.transfer_to,
    ensures
        ({
            let saga = TransferSaga::SenderBalance { record, undo };
            let (after, result) = world.run(saga);
            let from = record.transfer_from;
            let to = record.transfer_to;
            let rows = before.balances.rows;
            &&& after.wf()
            &&& after.users == world.users
            &&& after.transfers.next_id == world.transfers.next_id
            &&& result is Ok <==> calm(world.balances.faults, 4) && movable(rows, record, undo)
            &&& result is Ok ==> {
                &&& result == Ok::<TransferRecord, AppError>(record)
                &&& after.transfers.rows() == world.transfers.rows()
                &&& moved(rows, after.balances.rows, from, to, delta(record, undo))
            }
            &&& result is Err ==> result == Err::<TransferRecord, AppError>(
                phase_error(rows, world.balances.faults, record, undo),
            )
            &&& result is Err && world.settles(saga) ==> after.same_rows(before)
            &&& world.settles(saga) == phase_settles(
                rows,
                world.balances.faults,
                !fails_next(world.transfers.faults()),
                record,
                undo,
            )
        }),
{
    let from = record.transfer_from;
    let to = record.transfer_to;
    let rows = before.balances.rows;
    let faults = world.balances.faults;
    let s0 = TransferSaga::SenderBalance { record, undo };
    let (w1, r1) = world.perform(TransferCommand::FindBalance(from));
    let s1 = s0.next(r1);
    assert(world.run(s0) == w1.run(s1));
    assert(world.settles(s0) == w1.settles(s1));
    match s1 {
        TransferSaga::Debit { sender, total, .. } => {
            let debited = sender.with_total(total);
            assert(!fails_at(faults, 0));
            lemma_replace(w1.balances, debited);
            let at = index_of(rows, from);
            assert(rows[at].key() == from);
            let (w2, r2) = w1.perform(TransferCommand::UpdateBalance(debited));
            let s2 = s1.next(r2);
            assert(w1.run(s1) == w2.run(s2));
            assert(w1.settles(s1) == w2.settles(s2));
            if r2 is Done {
                assert(!fails_at(faults, 1));
                lemma_lookup_update(rows, debited);
                let (w3, r3) = w2.perform(TransferCommand::FindBalance(to));
                let s3 = s2.next(r3);
                assert(w2.run(s2) == w3.run(s3));
                assert(w2.settles(s2) == w3.settles(s3));
                match s3 {
                    TransferSaga::Credit { receiver, total: raised, .. } => {
                        let credited = receiver.with_total(raised);
                        assert(!fails_at(faults, 2));
                        lemma_replace(w3.balances, credited);
                        lemma_lookup_update(w2.balances.rows, credited);
                        let (w4, r4) = w3.perform(TransferCommand::UpdateBalance(credited));
                        let s4 = s3.next(r4);
                        assert(w3.run(s3) == w4.run(s4));
                        assert(w3.settles(s3) == w4.settles(s4));
                        if r4 is Done {
                            assert(!fails_at(faults, 3));
                            assert(w4.run(s4) == (w4, Ok::<TransferRecord, AppError>(record)));
                            assert(w4.settles(s4));
                            assert forall|user_id: i32|
                                user_id != from && user_id != to implies #[trigger] lookup(
                                w4.balances.rows,
                                user_id,
                            ) == lookup(rows, user_id) by {
                                assert(lookup(w2.balances.rows, user_id) == lookup(rows, user_id));
                            }
                        } else {
                            assert(fails_at(faults, 3));
                            assert(fails_next(w4.balances.faults) == fails_at(faults, 4));
                            lemma_full_undo(
                                before,
                                w4,
                                record,
                                undo,
                                sender,
                                debited,
                                AppError::StorageError(Stage::BalanceWrite),
                            );
                        }
                    },
                    TransferSaga::Compensate { error, .. } => {
                        if r3 is Failed {
                            assert(fails_at(faults, 2));
                        } else {
                            assert(!fails_at(faults, 2));
                        }
                        assert(fails_next(w3.balances.faults) == fails_at(faults, 3));
                        lemma_full_undo(before, w3, record, undo, sender, debited, error);
                    },
                    _ => {},
                }
            } else {
                assert(fails_at(faults, 1));
                lemma_ledger_undo(
                    before.transfers.rows(),
                    w2,
                    record,
                    undo,
                    AppError::StorageError(Stage::BalanceWrite),
                );
            }
        },
        TransferSaga::Compensate { error, .. } => {
            if r1 is Failed {
                assert(fails_at(faults, 0));
            } else {
                assert(!fails_at(faults, 0));
            }
            lemma_ledger_undo(before.transfers.rows(), w1, record, undo, error);
        },
        _ => {},
    }
}

/// Whether a request for a new transfer goes through: it is valid, both
/// users exist, the ledger records it, the balance store answers four calls,
/// and the balances allow the movement.
pub open spec fn creation_owed(world: TransferWorld, input: CreateTransferRequest) -> bool {
    &&& input.verdict() is Ok
    &&& world.users.contains(input.transfer_from)
    &&& world.users.contains(input.transfer_to)
    &&& !fails_next(world.transfers.faults())
    &&& world.transfers.next_id < i32::MAX
    &&& calm(world.balances.faults, 4)
    &&& lookup(world.balances.rows, input.transfer_from) is Some
    &&& lookup(world.balances.rows, input.transfer_to) is Some
    &&& total_of(world.balances.rows, input.transfer_from) >= input.transfer_amount
    &&& total_of(world.balances.rows, input.transfer_to) + input.transfer_amount <= i32::MAX
}

/// Whether a request for a new transfer gets as far as the balances: it is
/// valid, both users exist and the ledger records it.
pub open spec fn creation_recorded(world: TransferWorld, input: CreateTransferRequest) -> bool {
    &&& input.verdict() is Ok
    &&& world.users.contains(input.transfer_from)
    &&& world.users.contains(input.transfer_to)
    &&& !fails_next(world.transfers.faults())
    &&& world.transfers.next_id < i32::MAX
}

/// Why a request for a new transfer is turned down, where it is: the first
/// of its steps, in their order, that does not go through.
pub open spec fn creation_error(world: TransferWorld, input: CreateTransferRequest) -> AppError {
    if input.verdict() is Err {
        AppError::ValidationError(input.verdict()->Err_0)
    } else if !world.users.contains(input.transfer_from) {
        AppError::NotFound(Missing::User(input.transfer_from))
    } else if !world.users.contains(input.transfer_to) {
        AppError::NotFound(Missing::User(input.transfer_to))
    } else if fails_next(world.transfers.faults()) || world.transfers.next_id == i32::MAX {
        AppError::StorageError(Stage::LedgerWrite)
    } else {
        phase_error(
            world.balances.rows,
            world.balances.faults,
            input.draft().keyed(world.transfers.next_id),
            LedgerUndo::Delete(world.transfers.next_id),
        )
    }
}

/// Whether no compensation fails while a transfer is created. Nothing has to
/// be taken back before the ledger has recorded the transfer; from then on
/// see `phase_settles`, with the ledger's second call as the one that deletes
/// the record.
pub open spec fn creation_settles(world: TransferWorld, input: CreateTransferRequest) -> bool {
    creation_recorded(world, input) ==> phase_settles(
        world.balances.rows,
        world.balances.faults,
        !fails_at(world.transfers.faults(), 1),
        input.draft().keyed(world.transfers.next_id),
        LedgerUndo::Delete(world.transfers.next_id),
    )
}

/// Creating a transfer.
///
/// It succeeds exactly on the requests that `creation_owed` describes. Then
/// the record stands in the ledger under the next key, the amount has left the
/// sender's balance and reached the receiver's, and nothing else has changed.
/// Otherwise the error is the one that `creation_error` names, and unless a
/// compensation failed, balances and ledger are what they were: the record
/// that was created in the attempt is gone again. No compensation fails
/// exactly where `creation_settles` holds.
pub proof fn lemma_create_transfer(world: TransferWorld, input: CreateTransferRequest)
    requires
        world.wf(),
    ensures
        ({
            let saga = TransferSaga::create(input);
            let (after, result) = world.run(saga);
            let record = input.draft().keyed(world.transfers.next_id);
            &&& after.wf()
            &&& after.users == world.users
            &&& result is Ok <==> creation_owed(world, input)
            &&& result is Ok ==> {
                &&& result == Ok::<TransferRecord, AppError>(record)
                &&& after.transfers.rows() == world.transfers.rows().push(record)
                &&& lookup(after.transfers.rows(), record.transfer_id) == Some(record)
                &&& moved(
                    world.balances.rows,
                    after.balances.rows,
                    input.transfer_from,
                    input.transfer_to,
                    input.transfer_amount as int,
                )
            }
            &&& result is Err ==> result == Err::<TransferRecord, AppError>(
                creation_error(world, input),
            )
            &&& result is Err && world.settles(saga) ==> {
                &&& after.same_rows(world)
                &&& lookup(after.transfers.rows(), world.transfers.next_id) is None
            }
            &&& world.settles(saga) == creation_settles(world, input)
        }),
{
    let from = input.transfer_from;
    let to = input.transfer_to;
    let record = input.draft().keyed(world.transfers.next_id);
    let undo = LedgerUndo::Delete(world.transfers.next_id);
    let s0 = TransferSaga::create(input);
    lemma_create(world.transfers, input.draft());
    if input.verdict() is Ok {
        let (w1, r1) = world.perform(TransferCommand::FindUser(from));
        let s1 = s0.next(r1);
        assert(world.run(s0) == w1.run(s1));
        assert(world.settles(s0) == w1.settles(s1));
        if world.users.contains(from) {
            let (w2, r2) = w1.perform(TransferCommand::FindUser(to));
            let s2 = s1.next(r2);
            assert(w1.run(s1) == w2.run(s2));
            assert(w1.settles(s1) == w2.settles(s2));
            if world.users.contains(to) {
                let (w3, r3) = w2.perform(TransferCommand::CreateTransfer(input.draft()));
                let s3 = s2.next(r3);
                assert(w2.run(s2) == w3.run(s3));
                assert(w2.settles(s2) == w3.settles(s3));
                if r3 is Transfer {
                    assert(fails_next(w3.transfers.faults()) == fails_at(
                        world.transfers.faults(),
                        1,
                    ));
                    lemma_balance_phase(world, w3, record, undo);
                } else {
                    assert(w3.settles(s3));
                    assert(w3.run(s3).0 == w3);
                }
            } else {
                assert(w2.settles(s2));
                assert(w2.run(s2).0 == w2);
            }
        } else {
            assert(w1.settles(s1));
            assert(w1.run(s1).0 == w1);
        }
    } else {
        assert(world.settles(s0));
    }
}

/// Whether a request to amend a transfer gets as far as the balances: it is
/// valid, both users exist, and the ledger finds the transfer and takes the
/// new values.
pub open spec fn amendment_recorded(world: TransferWorld, input: UpdateTransferRequest) -> bool {
    &&& input.verdict() is Ok
    &&& world.users.contains(input.transfer_from)
    &&& world.users.contains(input.transfer_to)
    &&& calm(world.transfers.faults(), 2)
    &&& lookup(world.transfers.rows(), input.transfer_id) is Some
}

/// Whether a request to amend a transfer goes through: it gets as far as the
/// balances, the balance store answers four calls, and the balances allow the
/// change of the amount to be moved.
pub open spec fn amendment_owed(world: TransferWorld, input: UpdateTransferRequest) -> bool {
    &&& amendment_recorded(world, input)
    &&& calm(world.balances.faults, 4)
    &&& movable(
        world.balances.rows,
        input.revised(),
        LedgerUndo::Restore(lookup(world.transfers.rows(), input.transfer_id)->Some_0),
    )
}

/// Why a request to amend a transfer is turned down, where it is: the first
/// of its steps, in their order, that does not go through.
pub open spec fn amendment_error(world: TransferWorld, input: UpdateTransferRequest) -> AppError {
    if input.verdict() is Err {
        AppError::ValidationError(input.verdict()->Err_0)
    } else if !world.users.contains(input.transfer_from) {
        AppError::NotFound(Missing::User(input.transfer_from))
    } else if !world.users.contains(input.transfer_to) {
        AppError::NotFound(Missing::User(input.transfer_to))
    } else if fails_at(world.transfers.faults(), 0) {
        AppError::StorageError(Stage::LedgerRead)
    } else if lookup(world.transfers.rows(), input.transfer_id) is None {
        AppError::NotFound(Missing::Transfer(input.transfer_id))
    } else if fails_at(world.transfers.faults(), 1) {
        AppError::StorageError(Stage::LedgerWrite)
    } else {
        phase_error(
            world.balances.rows,
            world.balances.faults,
            input.revised(),
            LedgerUndo::Restore(lookup(world.transfers.rows(), input.transfer_id)->Some_0),
        )
    }
}

/// Whether no compensation fails while a transfer is amended. Nothing has to
/// be taken back before the ledger has taken the new values; from then on see
/// `phase_settles`, with the ledger's third call as the one that writes the
/// earlier values back.
pub open spec fn amendment_settles(world: TransferWorld, input: UpdateTransferRequest) -> bool {
    amendment_recorded(world, input) ==> phase_settles(
        world.balances.rows,
        world.balances.faults,
        !fails_at(world.transfers.faults(), 2),
        input.revised(),
        LedgerUndo::Restore(lookup(world.transfers.rows(), input.transfer_id)->Some_0),
    )
}

/// Amending a transfer.
///
/// It succeeds exactly on the requests that `amendment_owed` describes. Then
/// the record reads as the request asks, and the change of the amount (new
/// minus old, which may be negative) has left the sender's balance and reached
/// the receiver's. Otherwise the error is the one that `amendment_error`
/// names, and unless a compensation failed, balances and ledger are what they
/// were: the record has its earlier values again. No compensation fails
/// exactly where `amendment_settles` holds.
pub proof fn lemma_update_transfer(world: TransferWorld, input: UpdateTransferRequest)
    requires
        world.wf(),
    ensures
        ({
            let saga = TransferSaga::update(input);
            let (after, result) = world.run(saga);
            let record = input.revised();
            let previous = lookup(world.transfers.rows(), input.transfer_id)->Some_0;
            &&& after.wf()
            &&& after.users == world.users
            &&& result is Ok <==> amendment_owed(world, input)
            &&& result is Ok ==> {
                &&& result == Ok::<TransferRecord, AppError>(record)
                &&& after.transfers.rows() == world.transfers.rows().update(
                    index_of(world.transfers.rows(), input.transfer_id),
                    record,
                )
                &&& lookup(after.transfers.rows(), input.transfer_id) == Some(record)
                &&& moved(
                    world.balances.rows,
                    after.balances.rows,
                    input.transfer_from,
                    input.transfer_to,
                    input.transfer_amount - previous.transfer_amount,
                )
            }
            &&& result is Err ==> result == Err::<TransferRecord, AppError>(
                amendment_error(world, input),
            )
            &&& result is Err && world.settles(saga) ==> after.same_rows(world)
            &&& world.settles(saga) == amendment_settles(world, input)
        }),
{
    let from = input.transfer_from;
    let to = input.transfer_to;
    let record = input.revised();
    let s0 = TransferSaga::update(input);
    if input.verdict() is Ok {
        let (w1, r1) = world.perform(TransferCommand::FindUser(from));
        let s1 = s0.next(r1);
        assert(world.run(s0) == w1.run(s1));
        assert(world.settles(s0) == w1.settles(s1));
        if world.users.contains(from) {
            let (w2, r2) = w1.perform(TransferCommand::FindUser(to));
            let s2 = s1.next(r2);
            assert(w1.run(s1) == w2.run(s2));
            assert(w1.settles(s1) == w2.settles(s2));
            if world.users.contains(to) {
                let (w3, r3) = w2.perform(TransferCommand::FindTransfer(input.transfer_id));
                let s3 = s2.next(r3);
                assert(w2.run(s2) == w3.run(s3));
                assert(w2.settles(s2) == w3.settles(s3));
                match r3 {
                    TransferReply::Transfer(Some(previous)) => {
                        let undo = LedgerUndo::Restore(previous);
                        assert(!fails_at(world.transfers.faults(), 0));
                        let at = index_of(world.transfers.rows(), input.transfer_id);
                        assert(world.transfers.rows()[at].key() == input.transfer_id);
                        lemma_update(w3.transfers, record);
                        let (w4, r4) = w3.perform(TransferCommand::UpdateTransfer(record));
                        let s4 = s3.next(r4);
                        assert(w3.run(s3) == w4.run(s4));
                        assert(w3.settles(s3) == w4.settles(s4));
                        if r4 is Transfer {
                            assert(!fails_at(world.transfers.faults(), 1));
                            assert(fails_next(w4.transfers.faults()) == fails_at(
                                world.transfers.faults(),
                                2,
                            ));
                            lemma_balance_phase(world, w4, record, undo);
                        } else {
                            assert(fails_at(world.transfers.faults(), 1));
                            assert(w4.settles(s4));
                            assert(w4.run(s4).0 == w4);
                        }
                    },
                    _ => {
                        if r3 is Failed {
                            assert(fails_at(world.transfers.faults(), 0));
                        }
                        assert(w3.settles(s3));
                        assert(w3.run(s3).0 == w3);
                    },
                }
            } else {
                assert(w2.settles(s2));
                assert(w2.run(s2).0 == w2);
            }
        } else {
            assert(w1.settles(s1));
            assert(w1.run(s1).0 == w1);
        }
    } else {
        assert(world.settles(s0));
    }
}

/// Why deleting a transfer fails, where it does.
pub open spec fn deletion_error(world: TransferWorld, transfer_id: i32) -> AppError {
    if fails_at(world.transfers.faults(), 0) {
        AppError::StorageError(Stage::LedgerRead)
    } else if lookup(world.transfers.rows(), transfer_id) is None {
        AppError::NotFound(Missing::Transfer(transfer_id))
    } else {
        AppError::StorageError(Stage::LedgerWrite)
    }
}

/// Deleting a transfer.
///
/// It succeeds exactly where the ledger answers two calls and holds the
/// transfer; then the record is gone and every other record stays. It never
/// touches a balance: the totals stay as the transfer left them. Where it
/// fails, the ledger holds what it held.
pub proof fn lemma_delete_transfer(world: TransferWorld, transfer_id: i32)
    requires
        world.wf(),
    ensures
        ({
            let (after, result) = world.run(TransferSaga::delete(transfer_id));
            let found = lookup(world.transfers.rows(), transfer_id);
            &&& after.wf()
            &&& after.users == world.users
            &&& after.balances == world.balances
            &&& result is Ok <==> calm(world.transfers.faults(), 2) && found is Some
            &&& result is Ok ==> {
                &&& result == Ok::<TransferRecord, AppError>(found->Some_0)
                &&& after.transfers.rows() == world.transfers.rows().remove(
                    index_of(world.transfers.rows(), transfer_id),
                )
                &&& lookup(after.transfers.rows(), transfer_id) is None
                &&& forall|other: i32|
                    other != transfer_id ==> #[trigger] lookup(after.transfers.rows(), other)
                        == lookup(world.transfers.rows(), other)
            }
            &&& result is Err ==> {
                &&& result == Err::<TransferRecord, AppError>(deletion_error(world, transfer_id))
                &&& after.transfers.rows() == world.transfers.rows()
            }
        }),
{
    let s0 = TransferSaga::delete(transfer_id);
    let (w1, r1) = world.perform(TransferCommand::FindTransfer(transfer_id));
    let s1 = s0.next(r1);
    assert(world.run(s0) == w1.run(s1));
    match r1 {
        TransferReply::Transfer(Some(record)) => {
            let at = index_of(world.transfers.rows(), transfer_id);
            assert(world.transfers.rows()[at].key() == transfer_id);
            lemma_delete(w1.transfers, transfer_id);
            let (w2, r2) = w1.perform(TransferCommand::DeleteTransfer(transfer_id));
            let s2 = s1.next(r2);
            assert(w1.run(s1) == w2.run(s2));
            assert(w2.run(s2).0 == w2);
            assert(!fails_at(world.transfers.faults(), 0));
            if r2 is Done {
                assert(!fails_at(world.transfers.faults(), 1));
            } else {
                assert(fails_at(world.transfers.faults(), 1));
            }
        },
        _ => {
            assert(w1.run(s1).0 == w1);
        },
    }
}

/// Every valid transfer between two different users who exist, out of a
/// balance that covers it and into one that can take it, with storage
/// answering every call, lowers the sender's total by the amount and raises
/// the receiver's by the same amount: the sum of the two totals is conserved.
pub proof fn lemma_transfer_conserves_total(world: TransferWorld, input: CreateTransferRequest)
    requires
        world.wf(),
        creation_owed(world, input),
    ensures
        ({
            let (after, result) = world.run(TransferSaga::create(input));
            let from = input.transfer_from;
            let to = input.transfer_to;
            &&& result is Ok
            &&& total_of(after.balances.rows, from) == total_of(world.balances.rows, from)
                - input.transfer_amount
            &&& total_of(after.balances.rows, to) == total_of(world.balances.rows, to)
                + input.transfer_amount
            &&& total_of(after.balances.rows, from) + total_of(after.balances.rows, to) == total_of(
                world.balances.rows,
                from,
            ) + total_of(world.balances.rows, to)
        }),
{
    lemma_create_transfer(world, input);
    let after = world.run(TransferSaga::create(input)).0;
    lemma_moved_conserves(
        world.balances.rows,
        after.balances.rows,
        input.transfer_from,
        input.transfer_to,
        input.transfer_amount as int,
    );
}

/// A transfer that fails leaves no trace, unless a compensation failed too:
/// the balances are what they were, and the record that was created in the
/// attempt is not in the ledger.
pub proof fn lemma_failed_transfer_leaves_no_trace(world: TransferWorld, input: CreateTransferRequest)
    requires
        world.wf(),
        world.run(TransferSaga::create(input)).1 is Err,
        creation_settles(world, input),
    ensures
        ({
            let after = world.run(TransferSaga::create(input)).0;
            &&& after.balances.rows == world.balances.rows
            &&& after.transfers.rows() == world.transfers.rows()
            &&& lookup(after.transfers.rows(), world.transfers.next_id) is None
        }),
{
    lemma_create_transfer(world, input);
}

/// No compensation fails where the ledger answers its second call and the
/// balance store either answers its next five calls or fails at most one of
/// them while the balances allow the movement: a single storage failure
/// leaves no trace.
pub proof fn lemma_single_failure_settles(world: TransferWorld, input: CreateTransferRequest)
    requires
        !fails_at(world.transfers.faults(), 1),
        calm(world.balances.faults, 5) || (at_most_one_fails(world.balances.faults, 5) && movable(
            world.balances.rows,
            input.draft().keyed(world.transfers.next_id),
            LedgerUndo::Delete(world.transfers.next_id),
        )),
    ensures
        creation_settles(world, input),
{
    let faults = world.balances.faults;
    if !calm(faults, 5) {
        if fails_at(faults, 2) {
            assert(!(fails_at(faults, 2) && fails_at(faults, 3)));
        }
        if fails_at(faults, 3) {
            assert(!(fails_at(faults, 3) && fails_at(faults, 4)));
        }
    } else {
        assert(!fails_at(faults, 3));
        assert(!fails_at(faults, 4));
    }
}

/// A transfer from a user to the same user is turned down by validation
/// before anything is looked up: the stores are not called at all.
pub proof fn lemma_transfer_to_self_is_refused(world: TransferWorld, input: CreateTransferRequest)
    requires
        input.transfer_from == input.transfer_to,
    ensures
        world.run(TransferSaga::create(input)) == (
            world,
            Err::<TransferRecord, AppError>(
                AppError::ValidationError(
                    if input.transfer_amount <= 0 {
                        Invalid::AmountNotPositive
                    } else {
                        Invalid::SameAccount
                    },
                ),
            ),
        ),
{
}

/// A transfer of more than the sender holds is turned down as
/// `InsufficientFunds`. Where the stores answer, the balances are untouched
/// and the ledger is what it was.
pub proof fn lemma_uncovered_transfer_is_refused(world: TransferWorld, input: CreateTransferRequest)
    requires
        world.wf(),
        input.verdict() is Ok,
        world.users.contains(input.transfer_from),
        world.users.contains(input.transfer_to),
        world.transfers.next_id < i32::MAX,
        calm(world.transfers.faults(), 2),
        calm(world.balances.faults, 1),
        lookup(world.balances.rows, input.transfer_from) is Some,
        input.transfer_amount > total_of(world.balances.rows, input.transfer_from),
    ensures
        ({
            let (after, result) = world.run(TransferSaga::create(input));
            &&& result == Err::<TransferRecord, AppError>(
                AppError::InsufficientFunds {
                    user_id: input.transfer_from,
                    balance: lookup(world.balances.rows, input.transfer_from)->Some_0.total_balance,
                    amount: input.transfer_amount,
                },
            )
            &&& after.same_rows(world)
        }),
{
    assert(!fails_at(world.transfers.faults(), 0));
    assert(!fails_at(world.transfers.faults(), 1));
    assert(!fails_at(world.balances.faults, 0));
    lemma_create_transfer(world, input);
}

/// A write to the sender's balance that fails while a transfer is created
/// leaves the sender's balance at its value before the attempt and the
/// transfer absent, provided that the ledger answers.
pub proof fn lemma_failed_debit_is_undone(world: TransferWorld, input: CreateTransferRequest)
    requires
        world.wf(),
        input.verdict() is Ok,
        world.users.contains(input.transfer_from),
        world.users.contains(input.transfer_to),
        world.transfers.next_id < i32::MAX,
        calm(world.transfers.faults(), 2),
        lookup(world.balances.rows, input.transfer_from) is Some,
        total_of(world.balances.rows, input.transfer_from) >= input.transfer_amount,
        !fails_at(world.balances.faults, 0),
        fails_at(world.balances.faults, 1),
    ensures
        ({
            let (after, result) = world.run(TransferSaga::create(input));
            &&& result == Err::<TransferRecord, AppError>(
                AppError::StorageError(Stage::BalanceWrite),
            )
            &&& lookup(after.balances.rows, input.transfer_from) == lookup(
                world.balances.rows,
                input.transfer_from,
            )
            &&& after.same_rows(world)
            &&& lookup(after.transfers.rows(), world.transfers.next_id) is None
        }),
{
    assert(!fails_at(world.transfers.faults(), 0));
    assert(!fails_at(world.transfers.faults(), 1));
    lemma_create_transfer(world, input);
}

} // verus!
