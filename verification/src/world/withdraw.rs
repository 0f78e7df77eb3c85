//! What the withdrawal operations do to the stores, and what holds of every
//! run of them.

use crate::domain::{
    holdable, total_of, Balance, CreateWithdrawRequest, UpdateWithdrawRequest, WithdrawRecord,
};
use crate::errors::{AppError, Missing, Stage};
use crate::saga::withdraw::{
    withdraw_delta, WithdrawCommand, WithdrawReply, WithdrawSaga, WithdrawStep,
    WithdrawUndo,
};
use crate::store::{
    appended, calm, distinct_keys, fails_at, fails_next, index_of, lemma_create, lemma_delete,
    lemma_delete_undoes_create, lemma_replace, lemma_update, lemma_update_undoes_update, lookup,
    overwritten, Entry, LedgerView, TableView,
};
use vstd::prelude::*;

verus! {

/// What the withdrawal operations see of the stores.
pub struct WithdrawWorld {
    pub users: Set<i32>,
    pub balances: TableView<Balance>,
    pub withdraws: LedgerView<WithdrawRecord>,
}

impl WithdrawWorld {
    /// Both stores are well formed.
    pub open spec fn wf(self) -> bool {
        &&& self.balances.wf()
        &&& self.withdraws.wf()
    }

    /// How the stores answer a call, and what they hold afterwards.
    pub open spec fn perform(self, command: WithdrawCommand) -> (WithdrawWorld, WithdrawReply) {
        match command {
            WithdrawCommand::FindUser(user_id) => (
                self,
                WithdrawReply::User(self.users.contains(user_id)),
            ),
            WithdrawCommand::CreateWithdraw(draft) => {
                let (withdraws, made) = self.withdraws.create(draft);
                (
                    WithdrawWorld { users: self.users, balances: self.balances, withdraws },
                    match made {
                        Ok(record) => WithdrawReply::Withdraw(Some(record)),
                        Err(_) => WithdrawReply::Failed,
                    },
                )
            },
            WithdrawCommand::FindWithdraw(withdraw_id) => {
                let (withdraws, found) = self.withdraws.get(withdraw_id);
                (
                    WithdrawWorld { users: self.users, balances: self.balances, withdraws },
                    match found {
                        Ok(record) => WithdrawReply::Withdraw(record),
                        Err(_) => WithdrawReply::Failed,
                    },
                )
            },
            WithdrawCommand::UpdateWithdraw(record) => {
                let (withdraws, made) = self.withdraws.update(record);
                (
                    WithdrawWorld { users: self.users, balances: self.balances, withdraws },
                    match made {
                        Ok(record) => WithdrawReply::Withdraw(Some(record)),
                        Err(_) => WithdrawReply::Failed,
                    },
                )
            },
            WithdrawCommand::DeleteWithdraw(withdraw_id) => {
                let (withdraws, done) = self.withdraws.delete(withdraw_id);
                (
                    WithdrawWorld { users: self.users, balances: self.balances, withdraws },
                    match done {
                        Ok(_) => WithdrawReply::Done,
                        Err(_) => WithdrawReply::Failed,
                    },
                )
            },
            WithdrawCommand::FindBalance(user_id) => {
                let (balances, found) = self.balances.get(user_id);
                (
                    WithdrawWorld { users: self.users, balances, withdraws: self.withdraws },
                    match found {
                        Ok(balance) => WithdrawReply::Balance(balance),
                        Err(_) => WithdrawReply::Failed,
                    },
                )
            },
            WithdrawCommand::UpdateBalance(balance) => {
                let (balances, done) = self.balances.replace(balance);
                (
                    WithdrawWorld { users: self.users, balances, withdraws: self.withdraws },
                    match done {
                        Ok(_) => WithdrawReply::Done,
                        Err(_) => WithdrawReply::Failed,
                    },
                )
            },
        }
    }

    /// Where the stores end up, and with what result, when the machine `saga`
    /// is driven against them until it finishes.
    pub open spec fn run(self, saga: WithdrawSaga) -> (WithdrawWorld, Result<WithdrawRecord, AppError>)
        decreases saga.remaining(),
    {
        match saga.step() {
            WithdrawStep::Finish(result) => (self, result),
            WithdrawStep::Perform(command) => {
                let (world, reply) = self.perform(command);
                world.run(saga.next(reply))
            },
        }
    }

    /// Whether, when the machine `saga` is driven against the stores, every
    /// call that takes something back is answered: no compensation fails.
    pub open spec fn settles(self, saga: WithdrawSaga) -> bool
        decreases saga.remaining(),
    {
        match saga.step() {
            WithdrawStep::Finish(_) => true,
            WithdrawStep::Perform(command) => {
                let (world, reply) = self.perform(command);
                &&& saga is Compensate ==> reply !is Failed
                &&& world.settles(saga.next(reply))
            },
        }
    }

    /// The same balances and the same withdrawals, whatever became of the
    /// schedules of failures and of the next key.
    pub open spec fn same_rows(self, other: WithdrawWorld) -> bool {
        &&& self.balances.rows == other.balances.rows
        &&& self.withdraws.rows() == other.withdraws.rows()
    }
}

/// `after` is `before` with `amount` taken from the user's total, which
/// covered it, and with the amount and time of `record` noted as the user's
/// last withdrawal. No other balance changed.
pub open spec fn debited(
    before: Seq<Balance>,
    after: Seq<Balance>,
    record: WithdrawRecord,
    amount: int,
) -> bool {
    &&& lookup(before, record.user_id) is Some
    &&& total_of(before, record.user_id) >= amount
    &&& holdable(total_of(before, record.user_id) - amount)
    &&& lookup(after, record.user_id) == Some(
        lookup(before, record.user_id)->Some_0.withdrawn(
            (total_of(before, record.user_id) - amount) as i32,
            record.withdraw_amount,
            record.withdraw_time,
        ),
    )
    &&& total_of(after, record.user_id) == total_of(before, record.user_id) - amount
    &&& forall|other: i32|
        other != record.user_id ==> #[trigger] lookup(after, other) == lookup(before, other)
}

/// The ledger `now` is the ledger `before` with `record` written to it, in
/// the way that `undo` takes back.
pub open spec fn written(
    before: Seq<WithdrawRecord>,
    now: Seq<WithdrawRecord>,
    record: WithdrawRecord,
    undo: WithdrawUndo,
) -> bool {
    match undo {
        WithdrawUndo::Delete(withdraw_id) => withdraw_id == record.withdraw_id && appended(
            before,
            now,
            record,
        ),
        WithdrawUndo::Restore(previous) => overwritten(before, now, record, previous),
    }
}

/// Whether the user's balance allows what `record` and `undo` take from it:
/// there is one, it covers the amount, and the new total can be held.
pub open spec fn coverable(rows: Seq<Balance>, record: WithdrawRecord, undo: WithdrawUndo) -> bool {
    &&& lookup(rows, record.user_id) is Some
    &&& total_of(rows, record.user_id) >= withdraw_delta(record, undo)
    &&& holdable(total_of(rows, record.user_id) - withdraw_delta(record, undo))
}

/// Why the balance phase fails, where it does: the first of its steps, in
/// their order, that does not go through.
pub open spec fn phase_error(
    rows: Seq<Balance>,
    faults: Seq<bool>,
    record: WithdrawRecord,
    undo: WithdrawUndo,
) -> AppError {
    if fails_at(faults, 0) {
        AppError::StorageError(Stage::BalanceRead)
    } else if lookup(rows, record.user_id) is None {
        AppError::NotFound(Missing::Balance(record.user_id))
    } else if total_of(rows, record.user_id) < withdraw_delta(record, undo) {
        AppError::InsufficientFunds {
            user_id: record.user_id,
            balance: lookup(rows, record.user_id)->Some_0.total_balance,
            amount: record.withdraw_amount,
        }
    } else if !holdable(total_of(rows, record.user_id) - withdraw_delta(record, undo)) {
        AppError::StorageError(Stage::BalanceLimit)
    } else {
        AppError::StorageError(Stage::BalanceWrite)
    }
}

/// Taking back the ledger write reports the error that caused it, touches no
/// balance and, where the ledger answers, leaves the ledger as it was before
/// the write.
pub proof fn lemma_ledger_undo(
    before: Seq<WithdrawRecord>,
    world: WithdrawWorld,
    record: WithdrawRecord,
    undo: WithdrawUndo,
    error: AppError,
)
    requires
        distinct_keys(before),
        world.wf(),
        written(before, world.withdraws.rows(), record, undo),
    ensures
        ({
            let saga = WithdrawSaga::Compensate { undo, error };
            let (after, result) = world.run(saga);
            &&& after.wf()
            &&& after.users == world.users
            &&& after.withdraws.next_id == world.withdraws.next_id
            &&& result == Err::<WithdrawRecord, AppError>(error)
            &&& after.balances == world.balances
            &&& world.settles(saga) == !fails_next(world.withdraws.faults())
            &&& world.settles(saga) ==> after.withdraws.rows() == before
        }),
{
    let saga = WithdrawSaga::Compensate { undo, error };
    match undo {
        WithdrawUndo::Delete(withdraw_id) => {
            lemma_delete_undoes_create(before, world.withdraws, record);
            let (w1, r1) = world.perform(WithdrawCommand::DeleteWithdraw(withdraw_id));
            assert(world.run(saga) == w1.run(saga.next(r1)));
            assert(world.settles(saga) == (r1 !is Failed && w1.settles(saga.next(r1))));
            assert(w1.settles(saga.next(r1)));
        },
        WithdrawUndo::Restore(previous) => {
            lemma_update_undoes_update(before, world.withdraws, record, previous);
            let (w1, r1) = world.perform(WithdrawCommand::UpdateWithdraw(previous));
            assert(world.run(saga) == w1.run(saga.next(r1)));
            assert(world.settles(saga) == (r1 !is Failed && w1.settles(saga.next(r1))));
            assert(w1.settles(saga.next(r1)));
        },
    }
}

/// What the balance phase of an operation does, from the reading of the
/// user's balance on. The ledger was written before (`written`) and the
/// balances are still those of `before`.
///
/// The phase succeeds exactly where the balance store answers two calls and
/// the balance is `coverable`; then the amount has been taken from the user's
/// total. If it fails and the compensation did not fail, balances and ledger
/// are those of `before`. The only compensation is the taking back of the
/// ledger write, which fails where the ledger does not answer its next call.
pub proof fn lemma_balance_phase(
    before: WithdrawWorld,
    world: WithdrawWorld,
    record: WithdrawRecord,
    undo: WithdrawUndo,
)
    requires
        before.wf(),
        world.wf(),
        world.balances.rows == before.balances.rows,
        written(before.withdraws.rows(), world.withdraws.rows(), record, undo),
    ensures
        ({
            let saga = WithdrawSaga::Reading { record, undo };
            let (after, result) = world.run(saga);
            let rows = before.balances.rows;
            &&& after.wf()
            &&& after.users == world.users
            &&& after.withdraws.next_id == world.withdraws.next_id
            &&& result is Ok <==> calm(world.balances.faults, 2) && coverable(rows, record, undo)
            &&& result is Ok ==> {
                &&& result == Ok::<WithdrawRecord, AppError>(record)
                &&& after.withdraws.rows() == world.withdraws.rows()
                &&& debited(rows, after.balances.rows, record, withdraw_delta(record, undo))
            }
            &&& result is Err ==> result == Err::<WithdrawRecord, AppError>(
                phase_error(rows, world.balances.faults, record, undo),
            )
            &&& result is Err && world.settles(saga) ==> after.same_rows(before)
            &&& world.settles(saga) == (result is Ok || !fails_next(world.withdraws.faults()))
        }),
{
    let rows = before.balances.rows;
    let s0 = WithdrawSaga::Reading { record, undo };
    let (w1, r1) = world.perform(WithdrawCommand::FindBalance(record.user_id));
    let s1 = s0.next(r1);
    assert(world.run(s0) == w1.run(s1));
    assert(world.settles(s0) == w1.settles(s1));
    match s1 {
        WithdrawSaga::Debiting { balance, .. } => {
            assert(!fails_at(world.balances.faults, 0));
            lemma_replace(w1.balances, balance);
            let at = index_of(rows, record.user_id);
            assert(rows[at].key() == record.user_id);
            let (w2, r2) = w1.perform(WithdrawCommand::UpdateBalance(balance));
            let s2 = s1.next(r2);
            assert(w1.run(s1) == w2.run(s2));
            assert(w1.settles(s1) == w2.settles(s2));
            if r2 is Done {
                assert(!fails_at(world.balances.faults, 1));
                assert(w2.run(s2) == (w2, Ok::<WithdrawRecord, AppError>(record)));
                assert(w2.settles(s2));
                crate::store::lemma_lookup_update(rows, balance);
            } else {
                assert(fails_at(world.balances.faults, 1));
                lemma_ledger_undo(
                    before.withdraws.rows(),
                    w2,
                    record,
                    undo,
                    AppError::StorageError(Stage::BalanceWrite),
                );
            }
        },
        WithdrawSaga::Compensate { error, .. } => {
            if r1 is Failed {
                assert(fails_at(world.balances.faults, 0));
            }
            lemma_ledger_undo(before.withdraws.rows(), w1, record, undo, error);
        },
        _ => {},
    }
}

/// Whether a request for a new withdrawal goes through: it is valid, the user
/// exists, the ledger records it, the balance store answers two calls, and
/// the user has a balance that covers the amount.
pub open spec fn creation_owed(world: WithdrawWorld, input: CreateWithdrawRequest) -> bool {
    &&& input.verdict() is Ok
    &&& world.users.contains(input.user_id)
    &&& !fails_next(world.withdraws.faults())
    &&& world.withdraws.next_id < i32::MAX
    &&& calm(world.balances.faults, 2)
    &&& lookup(world.balances.rows, input.user_id) is Some
    &&& total_of(world.balances.rows, input.user_id) >= input.withdraw_amount
}

/// Why a request for a new withdrawal is turned down, where it is: the first
/// of its steps, in their order, that does not go through.
pub open spec fn creation_error(world: WithdrawWorld, input: CreateWithdrawRequest) -> AppError {
    if input.verdict() is Err {
        AppError::ValidationError(input.verdict()->Err_0)
    } else if !world.users.contains(input.user_id) {
        AppError::NotFound(Missing::User(input.user_id))
    } else if fails_next(world.withdraws.faults()) || world.withdraws.next_id == i32::MAX {
        AppError::StorageError(Stage::LedgerWrite)
    } else {
        phase_error(
            world.balances.rows,
            world.balances.faults,
            input.draft().keyed(world.withdraws.next_id),
            WithdrawUndo::Delete(world.withdraws.next_id),
        )
    }
}

/// Whether a request for a new withdrawal gets as far as the balance: it is
/// valid, the user exists and the ledger records it.
pub open spec fn creation_recorded(world: WithdrawWorld, input: CreateWithdrawRequest) -> bool {
    &&& input.verdict() is Ok
    &&& world.users.contains(input.user_id)
    &&& !fails_next(world.withdraws.faults())
    &&& world.withdraws.next_id < i32::MAX
}

/// Whether no compensation fails while a withdrawal is created. The record has
/// to be deleted again exactly where the ledger recorded it and the request
/// did not go through; that takes the ledger's second call.
pub open spec fn creation_settles(world: WithdrawWorld, input: CreateWithdrawRequest) -> bool {
    creation_recorded(world, input) && !creation_owed(world, input) ==> !fails_at(
        world.withdraws.faults(),
        1,
    )
}

/// Creating a withdrawal.
///
/// It succeeds exactly on the requests that `creation_owed` describes. Then
/// the record stands in the ledger under the next key, and the user's total is
/// lower by the amount. Otherwise the error is the one that `creation_error`
/// names, and unless the compensation failed, balances and ledger are what
/// they were: the record that was created in the attempt is gone again. The
/// compensation fails exactly where `creation_settles` does not hold.
pub proof fn lemma_create_withdraw(world: WithdrawWorld, input: CreateWithdrawRequest)
    requires
        world.wf(),
    ensures
        ({
            let saga = WithdrawSaga::create(input);
            let (after, result) = world.run(saga);
            let record = input.draft().keyed(world.withdraws.next_id);
            &&& after.wf()
            &&& after.users == world.users
            &&& result is Ok <==> creation_owed(world, input)
            &&& result is Ok ==> {
                &&& result == Ok::<WithdrawRecord, AppError>(record)
                &&& after.withdraws.rows() == world.withdraws.rows().push(record)
                &&& lookup(after.withdraws.rows(), record.withdraw_id) == Some(record)
                &&& debited(
                    world.balances.rows,
                    after.balances.rows,
                    record,
                    input.withdraw_amount as int,
                )
            }
            &&& result is Err ==> result == Err::<WithdrawRecord, AppError>(
                creation_error(world, input),
            )
            &&& result is Err && world.settles(saga) ==> {
                &&& after.same_rows(world)
                &&& lookup(after.withdraws.rows(), world.withdraws.next_id) is None
            }
            &&& world.settles(saga) == creation_settles(world, input)
        }),
{
    let record = input.draft().keyed(world.withdraws.next_id);
    let undo = WithdrawUndo::Delete(world.withdraws.next_id);
    let s0 = WithdrawSaga::create(input);
    lemma_create(world.withdraws, input.draft());
    if input.verdict() is Ok {
        let (w1, r1) = world.perform(WithdrawCommand::FindUser(input.user_id));
        let s1 = s0.next(r1);
        assert(world.run(s0) == w1.run(s1));
        assert(world.settles(s0) == w1.settles(s1));
        if world.users.contains(input.user_id) {
            let (w2, r2) = w1.perform(WithdrawCommand::CreateWithdraw(input.draft()));
            let s2 = s1.next(r2);
            assert(w1.run(s1) == w2.run(s2));
            assert(w1.settles(s1) == w2.settles(s2));
            if r2 is Withdraw {
                assert(fails_next(w2.withdraws.faults()) == fails_at(world.withdraws.faults(), 1));
                lemma_balance_phase(world, w2, record, undo);
            } else {
                assert(w2.settles(s2));
                assert(w2.run(s2).0 == w2);
            }
        } else {
            assert(w1.settles(s1));
            assert(w1.run(s1).0 == w1);
        }
    } else {
        assert(world.settles(s0));
    }
}

/// Whether a request to amend a withdrawal goes through: it is valid, the
/// user exists, the ledger finds the withdrawal and takes the new values, the
/// balance store answers two calls, and the user has a balance that covers
/// the change of the amount.
pub open spec fn amendment_owed(world: WithdrawWorld, input: UpdateWithdrawRequest) -> bool {
    &&& input.verdict() is Ok
    &&& world.users.contains(input.user_id)
    &&& calm(world.withdraws.faults(), 2)
    &&& lookup(world.withdraws.rows(), input.withdraw_id) is Some
    &&& calm(world.balances.faults, 2)
    &&& coverable(
        world.balances.rows,
        input.revised(),
        WithdrawUndo::Restore(lookup(world.withdraws.rows(), input.withdraw_id)->Some_0),
    )
}

/// Why a request to amend a withdrawal is turned down, where it is: the first
/// of its steps, in their order, that does not go through.
pub open spec fn amendment_error(world: WithdrawWorld, input: UpdateWithdrawRequest) -> AppError {
    if input.verdict() is Err {
        AppError::ValidationError(input.verdict()->Err_0)
    } else if !world.users.contains(input.user_id) {
        AppError::NotFound(Missing::User(input.user_id))
    } else if fails_at(world.withdraws.faults(), 0) {
        AppError::StorageError(Stage::LedgerRead)
    } else if lookup(world.withdraws.rows(), input.withdraw_id) is None {
        AppError::NotFound(Missing::Withdraw(input.withdraw_id))
    } else if fails_at(world.withdraws.faults(), 1) {
        AppError::StorageError(Stage::LedgerWrite)
    } else {
        phase_error(
            world.balances.rows,
            world.balances.faults,
            input.revised(),
            WithdrawUndo::Restore(lookup(world.withdraws.rows(), input.withdraw_id)->Some_0),
        )
    }
}

/// Whether a request to amend a withdrawal gets as far as the balance: it is
/// valid, the user exists, and the ledger finds the withdrawal and takes the new
/// values.
pub open spec fn amendment_recorded(world: WithdrawWorld, input: UpdateWithdrawRequest) -> bool {
    &&& input.verdict() is Ok
    &&& world.users.contains(input.user_id)
    &&& calm(world.withdraws.faults(), 2)
    &&& lookup(world.withdraws.rows(), input.withdraw_id) is Some
}

/// Whether no compensation fails while a withdrawal is amended. The earlier
/// values have to be written back exactly where the ledger took the new ones
/// and the request did not go through; that takes the ledger's third call.
pub open spec fn amendment_settles(world: WithdrawWorld, input: UpdateWithdrawRequest) -> bool {
    amendment_recorded(world, input) && !amendment_owed(world, input) ==> !fails_at(
        world.withdraws.faults(),
        2,
    )
}

/// Amending a withdrawal.
///
/// It succeeds exactly on the requests that `amendment_owed` describes. Then
/// the record reads as the request asks, and the change of the amount (new
/// minus old, which may be negative) has been taken from the user's total.
/// Otherwise the error is the one that `amendment_error` names, and unless
/// the compensation failed, balances and ledger are what they were: the record
/// has its earlier values again. The compensation fails exactly where
/// `amendment_settles` does not hold.
pub proof fn lemma_update_withdraw(world: WithdrawWorld, input: UpdateWithdrawRequest)
    requires
        world.wf(),
    ensures
        ({
            let saga = WithdrawSaga::update(input);
            let (after, result) = world.run(saga);
            let record = input.revised();
            let previous = lookup(world.withdraws.rows(), input.withdraw_id)->Some_0;
            &&& after.wf()
            &&& after.users == world.users
            &&& result is Ok <==> amendment_owed(world, input)
            &&& result is Ok ==> {
                &&& result == Ok::<WithdrawRecord, AppError>(record)
                &&& after.withdraws.rows() == world.withdraws.rows().update(
                    index_of(world.withdraws.rows(), input.withdraw_id),
                    record,
                )
                &&& lookup(after.withdraws.rows(), input.withdraw_id) == Some(record)
                &&& debited(
                    world.balances.rows,
                    after.balances.rows,
                    record,
                    input.withdraw_amount - previous.withdraw_amount,
                )
            }
            &&& result is Err ==> result == Err::<WithdrawRecord, AppError>(
                amendment_error(world, input),
            )
            &&& result is Err && world.settles(saga) ==> after.same_rows(world)
            &&& world.settles(saga) == amendment_settles(world, input)
        }),
{
    let record = input.revised();
    let s0 = WithdrawSaga::update(input);
    if input.verdict() is Ok {
        let (w1, r1) = world.perform(WithdrawCommand::FindUser(input.user_id));
        let s1 = s0.next(r1);
        assert(world.run(s0) == w1.run(s1));
        assert(world.settles(s0) == w1.settles(s1));
        if world.users.contains(input.user_id) {
            let (w2, r2) = w1.perform(WithdrawCommand::FindWithdraw(input.withdraw_id));
            let s2 = s1.next(r2);
            assert(w1.run(s1) == w2.run(s2));
            assert(w1.settles(s1) == w2.settles(s2));
            match r2 {
                WithdrawReply::Withdraw(Some(previous)) => {
                    let undo = WithdrawUndo::Restore(previous);
                    assert(!fails_at(world.withdraws.faults(), 0));
                    let at = index_of(world.withdraws.rows(), input.withdraw_id);
                    assert(world.withdraws.rows()[at].key() == input.withdraw_id);
                    lemma_update(w2.withdraws, record);
                    let (w3, r3) = w2.perform(WithdrawCommand::UpdateWithdraw(record));
                    let s3 = s2.next(r3);
                    assert(w2.run(s2) == w3.run(s3));
                    assert(w2.settles(s2) == w3.settles(s3));
                    if r3 is Withdraw {
                        assert(!fails_at(world.withdraws.faults(), 1));
                        assert(fails_next(w3.withdraws.faults()) == fails_at(
                            world.withdraws.faults(),
                            2,
                        ));
                        lemma_balance_phase(world, w3, record, undo);
                    } else {
                        assert(fails_at(world.withdraws.faults(), 1));
                        assert(w3.settles(s3));
                        assert(w3.run(s3).0 == w3);
                    }
                },
                _ => {
                    if r2 is Failed {
                        assert(fails_at(world.withdraws.faults(), 0));
                    }
                    assert(w2.settles(s2));
                    assert(w2.run(s2).0 == w2);
                },
            }
        } else {
            assert(w1.settles(s1));
            assert(w1.run(s1).0 == w1);
        }
    } else {
        assert(world.settles(s0));
    }
}

/// Why deleting a withdrawal fails, where it does.
pub open spec fn deletion_error(world: WithdrawWorld, withdraw_id: i32) -> AppError {
    if fails_at(world.withdraws.faults(), 0) {
        AppError::StorageError(Stage::LedgerRead)
    } else if lookup(world.withdraws.rows(), withdraw_id) is None {
        AppError::NotFound(Missing::Withdraw(withdraw_id))
    } else {
        AppError::StorageError(Stage::LedgerWrite)
    }
}

/// Deleting a withdrawal.
///
/// It succeeds exactly where the ledger answers two calls and holds the
/// withdrawal; then the record is gone and every other record stays. It never
/// touches a balance: the total stays as the withdrawal left it. Where it
/// fails, the ledger holds what it held.
pub proof fn lemma_delete_withdraw(world: WithdrawWorld, withdraw_id: i32)
    requires
        world.wf(),
    ensures
        ({
            let (after, result) = world.run(WithdrawSaga::delete(withdraw_id));
            let found = lookup(world.withdraws.rows(), withdraw_id);
            &&& after.wf()
            &&& after.users == world.users
            &&& after.balances == world.balances
            &&& result is Ok <==> calm(world.withdraws.faults(), 2) && found is Some
            &&& result is Ok ==> {
                &&& result == Ok::<WithdrawRecord, AppError>(found->Some_0)
                &&& after.withdraws.rows() == world.withdraws.rows().remove(
                    index_of(world.withdraws.rows(), withdraw_id),
                )
                &&& lookup(after.withdraws.rows(), withdraw_id) is None
                &&& forall|other: i32|
                    other != withdraw_id ==> #[trigger] lookup(after.withdraws.rows(), other)
                        == lookup(world.withdraws.rows(), other)
            }
            &&& result is Err ==> {
                &&& result == Err::<WithdrawRecord, AppError>(deletion_error(world, withdraw_id))
                &&& after.withdraws.rows() == world.withdraws.rows()
            }
        }),
{
    let s0 = WithdrawSaga::delete(withdraw_id);
    let (w1, r1) = world.perform(WithdrawCommand::FindWithdraw(withdraw_id));
    let s1 = s0.next(r1);
    assert(world.run(s0) == w1.run(s1));
    match r1 {
        WithdrawReply::Withdraw(Some(record)) => {
            let at = index_of(world.withdraws.rows(), withdraw_id);
            assert(world.withdraws.rows()[at].key() == withdraw_id);
            lemma_delete(w1.withdraws, withdraw_id);
            let (w2, r2) = w1.perform(WithdrawCommand::DeleteWithdraw(withdraw_id));
            let s2 = s1.next(r2);
            assert(w1.run(s1) == w2.run(s2));
            assert(w2.run(s2).0 == w2);
            assert(!fails_at(world.withdraws.faults(), 0));
            if r2 is Done {
                assert(!fails_at(world.withdraws.faults(), 1));
            } else {
                assert(fails_at(world.withdraws.faults(), 1));
            }
        },
        _ => {
            assert(w1.run(s1).0 == w1);
        },
    }
}

/// A withdrawal of more than the user holds is turned down as
/// `InsufficientFunds`. Where the stores answer, the balance is untouched and
/// the ledger is what it was.
pub proof fn lemma_uncovered_withdrawal_is_refused(world: WithdrawWorld, input: CreateWithdrawRequest)
    requires
        world.wf(),
        input.withdraw_amount > 0,
        world.users.contains(input.user_id),
        world.withdraws.next_id < i32::MAX,
        calm(world.withdraws.faults(), 2),
        calm(world.balances.faults, 1),
        lookup(world.balances.rows, input.user_id) is Some,
        input.withdraw_amount > total_of(world.balances.rows, input.user_id),
    ensures
        ({
            let (after, result) = world.run(WithdrawSaga::create(input));
            &&& result == Err::<WithdrawRecord, AppError>(
                AppError::InsufficientFunds {
                    user_id: input.user_id,
                    balance: lookup(world.balances.rows, input.user_id)->Some_0.total_balance,
                    amount: input.withdraw_amount,
                },
            )
            &&& after.same_rows(world)
        }),
{
    assert(!fails_at(world.withdraws.faults(), 0));
    assert(!fails_at(world.withdraws.faults(), 1));
    assert(!fails_at(world.balances.faults, 0));
    lemma_create_withdraw(world, input);
}

/// A withdrawal that fails leaves no trace, unless the compensation failed too:
/// the balances are what they were, and the record that was created in the
/// attempt is not in the ledger.
pub proof fn lemma_failed_withdraw_leaves_no_trace(world: WithdrawWorld, input: CreateWithdrawRequest)
    requires
        world.wf(),
        world.run(WithdrawSaga::create(input)).1 is Err,
        creation_settles(world, input),
    ensures
        ({
            let after = world.run(WithdrawSaga::create(input)).0;
            &&& after.balances.rows == world.balances.rows
            &&& after.withdraws.rows() == world.withdraws.rows()
            &&& lookup(after.withdraws.rows(), world.withdraws.next_id) is None
        }),
{
    lemma_create_withdraw(world, input);
}

} // verus!
