//! What the top-up operations do to the stores, and what holds of every run
//! of them.

use crate::domain::{
    holdable, total_of, Balance, CreateTopupRequest, TopupRecord, UpdateTopupRequest,
};
use crate::errors::{AppError, Missing, Stage};
use crate::saga::topup::{
    topup_delta, TopupCommand, TopupReply, TopupSaga, TopupStep, TopupUndo,
};
use crate::store::{
    appended, calm, fails_at, fails_next, holds, index_of, lemma_create, lemma_delete,
    lemma_delete_undoes_create, lemma_insert, lemma_replace, lemma_update,
    lemma_update_undoes_update, lookup, overwritten, Entry, LedgerView, TableView,
};
use vstd::prelude::*;

verus! {

/// What the top-up operations see of the stores.
pub struct TopupWorld {
    pub users: Set<i32>,
    pub balances: TableView<Balance>,
    pub topups: LedgerView<TopupRecord>,
}

impl TopupWorld {
    /// Both stores are well formed.
    pub open spec fn wf(self) -> bool {
        &&& self.balances.wf()
        &&& self.topups.wf()
    }

    /// How the stores answer a call, and what they hold afterwards.
    pub open spec fn perform(self, command: TopupCommand) -> (TopupWorld, TopupReply) {
        match command {
            TopupCommand::FindUser(user_id) => (self, TopupReply::User(self.users.contains(user_id))),
            TopupCommand::CreateTopup(draft) => {
                let (topups, made) = self.topups.create(draft);
                (
                    TopupWorld { users: self.users, balances: self.balances, topups },
                    match made {
                        Ok(record) => TopupReply::Topup(Some(record)),
                        Err(_) => TopupReply::Failed,
                    },
                )
            },
            TopupCommand::FindTopup(topup_id) => {
                let (topups, found) = self.topups.get(topup_id);
                (
                    TopupWorld { users: self.users, balances: self.balances, topups },
                    match found {
                        Ok(record) => TopupReply::Topup(record),
                        Err(_) => TopupReply::Failed,
                    },
                )
            },
            TopupCommand::UpdateTopup(record) => {
                let (topups, made) = self.topups.update(record);
                (
                    TopupWorld { users: self.users, balances: self.balances, topups },
                    match made {
                        Ok(record) => TopupReply::Topup(Some(record)),
                        Err(_) => TopupReply::Failed,
                    },
                )
            },
            TopupCommand::DeleteTopup(topup_id) => {
                let (topups, done) = self.topups.delete(topup_id);
                (
                    TopupWorld { users: self.users, balances: self.balances, topups },
                    match done {
                        Ok(_) => TopupReply::Done,
                        Err(_) => TopupReply::Failed,
                    },
                )
            },
            TopupCommand::FindBalance(user_id) => {
                let (balances, found) = self.balances.get(user_id);
                (
                    TopupWorld { users: self.users, balances, topups: self.topups },
                    match found {
                        Ok(balance) => TopupReply::Balance(balance),
                        Err(_) => TopupReply::Failed,
                    },
                )
            },
            TopupCommand::CreateBalance(balance) => {
                let (balances, done) = self.balances.insert(balance);
                (
                    TopupWorld { users: self.users, balances, topups: self.topups },
                    match done {
                        Ok(_) => TopupReply::Done,
                        Err(_) => TopupReply::Failed,
                    },
                )
            },
            TopupCommand::UpdateBalance(balance) => {
                let (balances, done) = self.balances.replace(balance);
                (
                    TopupWorld { users: self.users, balances, topups: self.topups },
                    match done {
                        Ok(_) => TopupReply::Done,
                        Err(_) => TopupReply::Failed,
                    },
                )
            },
        }
    }

    /// Where the stores end up, and with what result, when the machine `saga`
    /// is driven against them until it finishes.
    pub open spec fn run(self, saga: TopupSaga) -> (TopupWorld, Result<TopupRecord, AppError>)
        decreases saga.remaining(),
    {
        match saga.step() {
            TopupStep::Finish(result) => (self, result),
            TopupStep::Perform(command) => {
                let (world, reply) = self.perform(command);
                world.run(saga.next(reply))
            },
        }
    }

    /// Whether, when the machine `saga` is driven against the stores, every
    /// call that takes something back is answered: no compensation fails.
    pub open spec fn settles(self, saga: TopupSaga) -> bool
        decreases saga.remaining(),
    {
        match saga.step() {
            TopupStep::Finish(_) => true,
            TopupStep::Perform(command) => {
                let (world, reply) = self.perform(command);
                &&& saga is Compensate ==> reply !is Failed
                &&& world.settles(saga.next(reply))
            },
        }
    }

    /// The same balances and the same top-ups, whatever became of the
    /// schedules of failures and of the next key.
    pub open spec fn same_rows(self, other: TopupWorld) -> bool {
        &&& self.balances.rows == other.balances.rows
        &&& self.topups.rows() == other.topups.rows()
    }
}

/// `after` is `before` with `amount` added to the user's total. Where the user
/// had no balance, one was opened with the amount as its total, at the end of
/// the rows. Nothing else of the user's balance changed, and no other balance
/// changed at all.
pub open spec fn credited(before: Seq<Balance>, after: Seq<Balance>, user_id: i32, amount: int) -> bool {
    &&& holdable(total_of(before, user_id) + amount)
    &&& match lookup(before, user_id) {
        Some(balance) => lookup(after, user_id) == Some(
            balance.with_total((balance.total_balance + amount) as i32),
        ),
        None => after == before.push(Balance::opened(user_id, amount as i32)) && lookup(
            after,
            user_id,
        ) == Some(Balance::opened(user_id, amount as i32)),
    }
    &&& total_of(after, user_id) == total_of(before, user_id) + amount
    &&& forall|other: i32|
        other != user_id ==> #[trigger] lookup(after, other) == lookup(before, other)
}

/// The ledger `now` is the ledger `before` with `record` written to it, in
/// the way that `undo` takes back.
pub open spec fn written(
    before: Seq<TopupRecord>,
    now: Seq<TopupRecord>,
    record: TopupRecord,
    undo: TopupUndo,
) -> bool {
    match undo {
        TopupUndo::Delete(topup_id) => topup_id == record.topup_id && appended(before, now, record),
        TopupUndo::Restore(previous) => overwritten(before, now, record, previous),
    }
}

/// Whether the user's balance can take the raise that `record` and `undo`
/// stand for: the new total can be held, and only a new top-up may find the
/// user without a balance.
pub open spec fn creditable(rows: Seq<Balance>, record: TopupRecord, undo: TopupUndo) -> bool {
    match lookup(rows, record.user_id) {
        Some(balance) => holdable(balance.total_balance + topup_delta(record, undo)),
        None => undo is Delete,
    }
}

/// Why the balance phase fails, where it does: the first of its steps, in
/// their order, that does not go through.
pub open spec fn phase_error(
    rows: Seq<Balance>,
    faults: Seq<bool>,
    record: TopupRecord,
    undo: TopupUndo,
) -> AppError {
    if fails_at(faults, 0) {
        AppError::StorageError(Stage::BalanceRead)
    } else if lookup(rows, record.user_id) is None && undo is Restore {
        AppError::NotFound(Missing::Balance(record.user_id))
    } else if !creditable(rows, record, undo) {
        AppError::StorageError(Stage::BalanceLimit)
    } else {
        AppError::StorageError(Stage::BalanceWrite)
    }
}

/// Taking back the ledger write reports the error that caused it, touches no
/// balance and, where the ledger answers, leaves the ledger as it was before
/// the write.
pub proof fn lemma_ledger_undo(
    before: Seq<TopupRecord>,
    world: TopupWorld,
    record: TopupRecord,
    undo: TopupUndo,
    error: AppError,
)
    requires
        crate::store::distinct_keys(before),
        world.wf(),
        written(before, world.topups.rows(), record, undo),
    ensures
        ({
            let saga = TopupSaga::Compensate { undo, error };
            let (after, result) = world.run(saga);
            &&& after.wf()
            &&& after.users == world.users
            &&& after.topups.next_id == world.topups.next_id
            &&& result == Err::<TopupRecord, AppError>(error)
            &&& after.balances == world.balances
            &&& world.settles(saga) == !fails_next(world.topups.faults())
            &&& world.settles(saga) ==> after.topups.rows() == before
        }),
{
    let saga = TopupSaga::Compensate { undo, error };
    match undo {
        TopupUndo::Delete(topup_id) => {
            lemma_delete_undoes_create(before, world.topups, record);
            let (w1, r1) = world.perform(TopupCommand::DeleteTopup(topup_id));
            assert(world.run(saga) == w1.run(saga.next(r1)));
            assert(world.settles(saga) == (r1 !is Failed && w1.settles(saga.next(r1))));
            assert(w1.settles(saga.next(r1)));
        },
        TopupUndo::Restore(previous) => {
            lemma_update_undoes_update(before, world.topups, record, previous);
            let (w1, r1) = world.perform(TopupCommand::UpdateTopup(previous));
            assert(world.run(saga) == w1.run(saga.next(r1)));
            assert(world.settles(saga) == (r1 !is Failed && w1.settles(saga.next(r1))));
            assert(w1.settles(saga.next(r1)));
        },
    }
}

/// What the balance phase of an operation does, from the reading of the
/// user's balance on. The ledger was written before (`written`) and the
/// balances are still those of `before`.
///
/// The phase succeeds exactly where the balance store answers two calls and
/// the balance is `creditable`; then the amount has been added to the user's
/// total. If it fails and the compensation did not fail, balances and ledger
/// are those of `before`. The only compensation is the taking back of the
/// ledger write, which fails where the ledger does not answer its next call.
pub proof fn lemma_balance_phase(
    before: TopupWorld,
    world: TopupWorld,
    record: TopupRecord,
    undo: TopupUndo,
)
    requires
        before.wf(),
        world.wf(),
        world.balances.rows == before.balances.rows,
        written(before.topups.rows(), world.topups.rows(), record, undo),
    ensures
        ({
            let saga = TopupSaga::Reading { record, undo };
            let (after, result) = world.run(saga);
            let rows = before.balances.rows;
            &&& after.wf()
            &&& after.users == world.users
            &&& after.topups.next_id == world.topups.next_id
            &&& result is Ok <==> calm(world.balances.faults, 2) && creditable(rows, record, undo)
            &&& result is Ok ==> {
                &&& result == Ok::<TopupRecord, AppError>(record)
                &&& after.topups.rows() == world.topups.rows()
                &&& credited(rows, after.balances.rows, record.user_id, topup_delta(record, undo))
            }
            &&& result is Err ==> result == Err::<TopupRecord, AppError>(
                phase_error(rows, world.balances.faults, record, undo),
            )
            &&& result is Err && world.settles(saga) ==> after.same_rows(before)
            &&& world.settles(saga) == (result is Ok || !fails_next(world.topups.faults()))
        }),
{
    let rows = before.balances.rows;
    let s0 = TopupSaga::Reading { record, undo };
    let (w1, r1) = world.perform(TopupCommand::FindBalance(record.user_id));
    let s1 = s0.next(r1);
    assert(world.run(s0) == w1.run(s1));
    assert(world.settles(s0) == w1.settles(s1));
    match s1 {
        TopupSaga::Crediting { balance, opening, .. } => {
            assert(!fails_at(world.balances.faults, 0));
            let command = if opening {
                TopupCommand::CreateBalance(balance)
            } else {
                TopupCommand::UpdateBalance(balance)
            };
            if opening {
                lemma_insert(w1.balances, balance);
            } else {
                lemma_replace(w1.balances, balance);
            }
            let (w2, r2) = w1.perform(command);
            let s2 = s1.next(r2);
            assert(w1.run(s1) == w2.run(s2));
            assert(w1.settles(s1) == w2.settles(s2));
            if r2 is Done {
                assert(!fails_at(world.balances.faults, 1));
                assert(w2.run(s2) == (w2, Ok::<TopupRecord, AppError>(record)));
                assert(w2.settles(s2));
                if opening {
                    crate::store::lemma_lookup_push(rows, balance);
                } else {
                    crate::store::lemma_lookup_update(rows, balance);
                }
            } else {
                assert(fails_at(world.balances.faults, 1));
                lemma_ledger_undo(
                    before.topups.rows(),
                    w2,
                    record,
                    undo,
                    AppError::StorageError(Stage::BalanceWrite),
                );
            }
        },
        TopupSaga::Compensate { error, .. } => {
            if r1 is Failed {
                assert(fails_at(world.balances.faults, 0));
            }
            lemma_ledger_undo(before.topups.rows(), w1, record, undo, error);
        },
        _ => {},
    }
}

/// Whether a request for a new top-up goes through: it is valid, the user
/// exists, the ledger records it, the balance store answers two calls, and the
/// raised total can be held.
pub open spec fn creation_owed(world: TopupWorld, input: CreateTopupRequest) -> bool {
    &&& input.verdict() is Ok
    &&& world.users.contains(input.user_id)
    &&& !fails_next(world.topups.faults())
    &&& world.topups.next_id < i32::MAX
    &&& calm(world.balances.faults, 2)
    &&& holdable(total_of(world.balances.rows, input.user_id) + input.topup_amount)
}

/// Why a request for a new top-up is turned down, where it is: the first of
/// its steps, in their order, that does not go through.
pub open spec fn creation_error(world: TopupWorld, input: CreateTopupRequest) -> AppError {
    if input.verdict() is Err {
        AppError::ValidationError(input.verdict()->Err_0)
    } else if !world.users.contains(input.user_id) {
        AppError::NotFound(Missing::User(input.user_id))
    } else if fails_next(world.topups.faults()) || world.topups.next_id == i32::MAX {
        AppError::StorageError(Stage::LedgerWrite)
    } else {
        phase_error(
            world.balances.rows,
            world.balances.faults,
            input.draft().keyed(world.topups.next_id),
            TopupUndo::Delete(world.topups.next_id),
        )
    }
}

/// Whether a request for a new top-up gets as far as the balance: it is
/// valid, the user exists and the ledger records it.
pub open spec fn creation_recorded(world: TopupWorld, input: CreateTopupRequest) -> bool {
    &&& input.verdict() is Ok
    &&& world.users.contains(input.user_id)
    &&& !fails_next(world.topups.faults())
    &&& world.topups.next_id < i32::MAX
}

/// Whether no compensation fails while a top-up is created. The record has
/// to be deleted again exactly where the ledger recorded it and the request
/// did not go through; that takes the ledger's second call.
pub open spec fn creation_settles(world: TopupWorld, input: CreateTopupRequest) -> bool {
    creation_recorded(world, input) && !creation_owed(world, input) ==> !fails_at(
        world.topups.faults(),
        1,
    )
}

/// Creating a top-up.
///
/// It succeeds exactly on the requests that `creation_owed` describes. Then
/// the record stands in the ledger under the next key with the fields of the
/// request, and the user's total is higher by the amount; a user who had no
/// balance has one with the amount as its total. Otherwise the error is the
/// one that `creation_error` names, and unless the compensation failed,
/// balances and ledger are what they were: the record that was created in the
/// attempt is gone again. The compensation fails exactly where
/// `creation_settles` does not hold.
pub proof fn lemma_create_topup(world: TopupWorld, input: CreateTopupRequest)
    requires
        world.wf(),
    ensures
        ({
            let saga = TopupSaga::create(input);
            let (after, result) = world.run(saga);
            let record = input.draft().keyed(world.topups.next_id);
            &&& after.wf()
            &&& after.users == world.users
            &&& result is Ok <==> creation_owed(world, input)
            &&& result is Ok ==> {
                &&& result == Ok::<TopupRecord, AppError>(record)
                &&& after.topups.rows() == world.topups.rows().push(record)
                &&& lookup(after.topups.rows(), record.topup_id) == Some(record)
                &&& credited(
                    world.balances.rows,
                    after.balances.rows,
                    input.user_id,
                    input.topup_amount as int,
                )
            }
            &&& result is Err ==> result == Err::<TopupRecord, AppError>(
                creation_error(world, input),
            )
            &&& result is Err && world.settles(saga) ==> {
                &&& after.same_rows(world)
                &&& lookup(after.topups.rows(), world.topups.next_id) is None
            }
            &&& world.settles(saga) == creation_settles(world, input)
        }),
{
    let record = input.draft().keyed(world.topups.next_id);
    let undo = TopupUndo::Delete(world.topups.next_id);
    let s0 = TopupSaga::create(input);
    lemma_create(world.topups, input.draft());
    if input.verdict() is Ok {
        let (w1, r1) = world.perform(TopupCommand::FindUser(input.user_id));
        let s1 = s0.next(r1);
        assert(world.run(s0) == w1.run(s1));
        assert(world.settles(s0) == w1.settles(s1));
        if world.users.contains(input.user_id) {
            let (w2, r2) = w1.perform(TopupCommand::CreateTopup(input.draft()));
            let s2 = s1.next(r2);
            assert(w1.run(s1) == w2.run(s2));
            assert(w1.settles(s1) == w2.settles(s2));
            if r2 is Topup {
                assert(fails_next(w2.topups.faults()) == fails_at(world.topups.faults(), 1));
                lemma_balance_phase(world, w2, record, undo);
            } else {
                assert(w2.settles(s2));
                assert(w2.run(s2).0 == w2);
            }
        } else {
            assert(w1.settles(s1));
            assert(w1.run(s1).0 == w1);
        }
    } else {
        assert(world.settles(s0));
    }
}

/// Whether a request to amend a top-up goes through: it is valid, the user
/// exists, the ledger finds the top-up and takes the new values, the balance
/// store answers two calls, and the user has a balance that can hold the
/// total with the change of the amount added.
pub open spec fn amendment_owed(world: TopupWorld, input: UpdateTopupRequest) -> bool {
    &&& input.verdict() is Ok
    &&& world.users.contains(input.user_id)
    &&& calm(world.topups.faults(), 2)
    &&& lookup(world.topups.rows(), input.topup_id) is Some
    &&& calm(world.balances.faults, 2)
    &&& lookup(world.balances.rows, input.user_id) is Some
    &&& holdable(
        total_of(world.balances.rows, input.user_id) + input.topup_amount - lookup(
            world.topups.rows(),
            input.topup_id,
        )->Some_0.topup_amount,
    )
}

/// Why a request to amend a top-up is turned down, where it is: the first of
/// its steps, in their order, that does not go through.
pub open spec fn amendment_error(world: TopupWorld, input: UpdateTopupRequest) -> AppError {
    if input.verdict() is Err {
        AppError::ValidationError(input.verdict()->Err_0)
    } else if !world.users.contains(input.user_id) {
        AppError::NotFound(Missing::User(input.user_id))
    } else if fails_at(world.topups.faults(), 0) {
        AppError::StorageError(Stage::LedgerRead)
    } else if lookup(world.topups.rows(), input.topup_id) is None {
        AppError::NotFound(Missing::Topup(input.topup_id))
    } else if fails_at(world.topups.faults(), 1) {
        AppError::StorageError(Stage::LedgerWrite)
    } else {
        phase_error(
            world.balances.rows,
            world.balances.faults,
            input.revised(),
            TopupUndo::Restore(lookup(world.topups.rows(), input.topup_id)->Some_0),
        )
    }
}

/// Whether a request to amend a top-up gets as far as the balance: it is
/// valid, the user exists, and the ledger finds the top-up and takes the new
/// values.
pub open spec fn amendment_recorded(world: TopupWorld, input: UpdateTopupRequest) -> bool {
    &&& input.verdict() is Ok
    &&& world.users.contains(input.user_id)
    &&& calm(world.topups.faults(), 2)
    &&& lookup(world.topups.rows(), input.topup_id) is Some
}

/// Whether no compensation fails while a top-up is amended. The earlier
/// values have to be written back exactly where the ledger took the new ones
/// and the request did not go through; that takes the ledger's third call.
pub open spec fn amendment_settles(world: TopupWorld, input: UpdateTopupRequest) -> bool {
    amendment_recorded(world, input) && !amendment_owed(world, input) ==> !fails_at(
        world.topups.faults(),
        2,
    )
}

/// Amending a top-up.
///
/// It succeeds exactly on the requests that `amendment_owed` describes. Then
/// the record reads as the request asks, and the user's total has changed by
/// the change of the amount (new minus old, which may be negative). Otherwise
/// the error is the one that `amendment_error` names, and unless the
/// compensation failed, balances and ledger are what they were: the record has
/// its earlier values again. The compensation fails exactly where
/// `amendment_settles` does not hold.
pub proof fn lemma_update_topup(world: TopupWorld, input: UpdateTopupRequest)
    requires
        world.wf(),
    ensures
        ({
            let saga = TopupSaga::update(input);
            let (after, result) = world.run(saga);
            let record = input.revised();
            let previous = lookup(world.topups.rows(), input.topup_id)->Some_0;
            &&& after.wf()
            &&& after.users == world.users
            &&& result is Ok <==> amendment_owed(world, input)
            &&& result is Ok ==> {
                &&& result == Ok::<TopupRecord, AppError>(record)
                &&& after.topups.rows() == world.topups.rows().update(
                    index_of(world.topups.rows(), input.topup_id),
                    record,
                )
                &&& lookup(after.topups.rows(), input.topup_id) == Some(record)
                &&& credited(
                    world.balances.rows,
                    after.balances.rows,
                    input.user_id,
                    input.topup_amount - previous.topup_amount,
                )
            }
            &&& result is Err ==> result == Err::<TopupRecord, AppError>(
                amendment_error(world, input),
            )
            &&& result is Err && world.settles(saga) ==> after.same_rows(world)
            &&& world.settles(saga) == amendment_settles(world, input)
        }),
{
    let record = input.revised();
    let s0 = TopupSaga::update(input);
    if input.verdict() is Ok {
        let (w1, r1) = world.perform(TopupCommand::FindUser(input.user_id));
        let s1 = s0.next(r1);
        assert(world.run(s0) == w1.run(s1));
        assert(world.settles(s0) == w1.settles(s1));
        if world.users.contains(input.user_id) {
            let (w2, r2) = w1.perform(TopupCommand::FindTopup(input.topup_id));
            let s2 = s1.next(r2);
            assert(w1.run(s1) == w2.run(s2));
            assert(w1.settles(s1) == w2.settles(s2));
            match r2 {
                TopupReply::Topup(Some(previous)) => {
                    let undo = TopupUndo::Restore(previous);
                    assert(!fails_at(world.topups.faults(), 0));
                    let at = index_of(world.topups.rows(), input.topup_id);
                    assert(world.topups.rows()[at].key() == input.topup_id);
                    lemma_update(w2.topups, record);
                    let (w3, r3) = w2.perform(TopupCommand::UpdateTopup(record));
                    let s3 = s2.next(r3);
                    assert(w2.run(s2) == w3.run(s3));
                    assert(w2.settles(s2) == w3.settles(s3));
                    if r3 is Topup {
                        assert(!fails_at(world.topups.faults(), 1));
                        assert(fails_next(w3.topups.faults()) == fails_at(
                            world.topups.faults(),
                            2,
                        ));
                        lemma_balance_phase(world, w3, record, undo);
                    } else {
                        assert(fails_at(world.topups.faults(), 1));
                        assert(w3.settles(s3));
                        assert(w3.run(s3).0 == w3);
                    }
                },
                _ => {
                    if r2 is Failed {
                        assert(fails_at(world.topups.faults(), 0));
                    }
                    assert(w2.settles(s2));
                    assert(w2.run(s2).0 == w2);
                },
            }
        } else {
            assert(w1.settles(s1));
            assert(w1.run(s1).0 == w1);
        }
    } else {
        assert(world.settles(s0));
    }
}

/// Why deleting a top-up fails, where it does.
pub open spec fn deletion_error(world: TopupWorld, topup_id: i32) -> AppError {
    if fails_at(world.topups.faults(), 0) {
        AppError::StorageError(Stage::LedgerRead)
    } else if lookup(world.topups.rows(), topup_id) is None {
        AppError::NotFound(Missing::Topup(topup_id))
    } else {
        AppError::StorageError(Stage::LedgerWrite)
    }
}

/// Deleting a top-up.
///
/// It succeeds exactly where the ledger answers two calls and holds the
/// top-up; then the record is gone and every other record stays. It never
/// touches a balance: the total stays as the top-up left it. Where it fails,
/// the ledger holds what it held.
pub proof fn lemma_delete_topup(world: TopupWorld, topup_id: i32)
    requires
        world.wf(),
    ensures
        ({
            let (after, result) = world.run(TopupSaga::delete(topup_id));
            let found = lookup(world.topups.rows(), topup_id);
            &&& after.wf()
            &&& after.users == world.users
            &&& after.balances == world.balances
            &&& result is Ok <==> calm(world.topups.faults(), 2) && found is Some
            &&& result is Ok ==> {
                &&& result == Ok::<TopupRecord, AppError>(found->Some_0)
                &&& after.topups.rows() == world.topups.rows().remove(
                    index_of(world.topups.rows(), topup_id),
                )
                &&& lookup(after.topups.rows(), topup_id) is None
                &&& forall|other: i32|
                    other != topup_id ==> #[trigger] lookup(after.topups.rows(), other) == lookup(
                        world.topups.rows(),
                        other,
                    )
            }
            &&& result is Err ==> {
                &&& result == Err::<TopupRecord, AppError>(deletion_error(world, topup_id))
                &&& after.topups.rows() == world.topups.rows()
            }
        }),
{
    let s0 = TopupSaga::delete(topup_id);
    let (w1, r1) = world.perform(TopupCommand::FindTopup(topup_id));
    let s1 = s0.next(r1);
    assert(world.run(s0) == w1.run(s1));
    match r1 {
        TopupReply::Topup(Some(record)) => {
            let at = index_of(world.topups.rows(), topup_id);
            assert(world.topups.rows()[at].key() == topup_id);
            lemma_delete(w1.topups, topup_id);
            let (w2, r2) = w1.perform(TopupCommand::DeleteTopup(topup_id));
            let s2 = s1.next(r2);
            assert(w1.run(s1) == w2.run(s2));
            assert(w2.run(s2).0 == w2);
            assert(!fails_at(world.topups.faults(), 0));
            if r2 is Done {
                assert(!fails_at(world.topups.faults(), 1));
            } else {
                assert(fails_at(world.topups.faults(), 1));
            }
        },
        _ => {
            assert(w1.run(s1).0 == w1);
        },
    }
}

/// A valid top-up of a user who exists, with storage answering every call and
/// a total that can take it, is recorded with the fields of the request and
/// raises the user's total by exactly the amount. The total of a user without
/// a balance counts as zero: the first top-up opens the balance with the
/// amount.
pub proof fn lemma_topup_raises_total(world: TopupWorld, input: CreateTopupRequest)
    requires
        world.wf(),
        input.topup_amount > 0,
        world.users.contains(input.user_id),
        calm(world.topups.faults(), 1),
        world.topups.next_id < i32::MAX,
        calm(world.balances.faults, 2),
        total_of(world.balances.rows, input.user_id) + input.topup_amount <= i32::MAX,
    ensures
        ({
            let (after, result) = world.run(TopupSaga::create(input));
            &&& result is Ok
            &&& result->Ok_0.topup_id == world.topups.next_id
            &&& result->Ok_0.user_id == input.user_id
            &&& result->Ok_0.topup_no == input.topup_no
            &&& result->Ok_0.topup_amount == input.topup_amount
            &&& result->Ok_0.topup_method == input.topup_method
            &&& result->Ok_0.topup_time == input.topup_time
            &&& lookup(after.topups.rows(), world.topups.next_id) == Some(result->Ok_0)
            &&& lookup(after.balances.rows, input.user_id) is Some
            &&& total_of(after.balances.rows, input.user_id) == total_of(
                world.balances.rows,
                input.user_id,
            ) + input.topup_amount
            &&& lookup(world.balances.rows, input.user_id) is None ==> after.balances.rows
                == world.balances.rows.push(Balance::opened(input.user_id, input.topup_amount))
        }),
{
    assert(!fails_at(world.topups.faults(), 0));
    lemma_create_topup(world, input);
}

/// A top-up that fails leaves no trace, unless the compensation failed too:
/// the balances are what they were, and the record that was created in the
/// attempt is not in the ledger.
pub proof fn lemma_failed_topup_leaves_no_trace(world: TopupWorld, input: CreateTopupRequest)
    requires
        world.wf(),
        world.run(TopupSaga::create(input)).1 is Err,
        creation_settles(world, input),
    ensures
        ({
            let after = world.run(TopupSaga::create(input)).0;
            &&& after.balances.rows == world.balances.rows
            &&& after.topups.rows() == world.topups.rows()
            &&& lookup(after.topups.rows(), world.topups.next_id) is None
        }),
{
    lemma_create_topup(world, input);
}

} // verus!
