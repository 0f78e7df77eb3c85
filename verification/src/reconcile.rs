//! Balances against ledgers.
//!
//! A user's total should be what the ledgers add up to: the top-ups, less the
//! withdrawals, plus what transfers brought and less what they cost. Each kind
//! of operation touches one ledger and the balances, so each is held against
//! its own ledger here: the difference between a user's total and what that
//! ledger adds up to for the user, the *gap*, is what an operation has to keep.
//! Creating a record keeps every gap, and so does amending one without
//! changing whose it is. Deleting a record does not: it leaves the balances
//! alone, and the gap moves by the amount of the record.

use crate::domain::{
    total_of, CreateTopupRequest, CreateTransferRequest, CreateWithdrawRequest, TopupRecord,
    TransferRecord, UpdateTopupRequest, UpdateTransferRequest, UpdateWithdrawRequest,
    WithdrawRecord,
};
use crate::saga::topup::TopupSaga;
use crate::saga::transfer::TransferSaga;
use crate::saga::withdraw::WithdrawSaga;
use crate::store::{index_of, lemma_lookup_at, lookup, Entry};
use crate::world::topup::{lemma_create_topup, lemma_delete_topup, lemma_update_topup, TopupWorld};
use crate::world::transfer::{
    lemma_create_transfer, lemma_delete_transfer, lemma_update_transfer, TransferWorld,
};
use crate::world::withdraw::{
    lemma_create_withdraw, lemma_delete_withdraw, lemma_update_withdraw, WithdrawWorld,
};
use vstd::prelude::*;

verus! {

/// The sum of `share` over the rows.
pub open spec fn tally<R>(rows: Seq<R>, share: spec_fn(R) -> int) -> int
    decreases rows.len(),
{
    if rows.len() == 0 {
        0
    } else {
        tally(rows.drop_last(), share) + share(rows.last())
    }
}

/// A row that is appended adds its share.
pub proof fn lemma_tally_push<R>(rows: Seq<R>, row: R, share: spec_fn(R) -> int)
    ensures
        tally(rows.push(row), share) == tally(rows, share) + share(row),
{
    assert(rows.push(row).drop_last() =~= rows);
}

/// A row that is written over another replaces the other's share by its own.
pub proof fn lemma_tally_update<R>(rows: Seq<R>, at: int, row: R, share: spec_fn(R) -> int)
    requires
        0 <= at < rows.len(),
    ensures
        tally(rows.update(at, row), share) == tally(rows, share) - share(rows[at]) + share(row),
    decreases rows.len(),
{
    let changed = rows.update(at, row);
    if at == rows.len() - 1 {
        assert(changed.drop_last() =~= rows.drop_last());
    } else {
        assert(changed.drop_last() =~= rows.drop_last().update(at, row));
        lemma_tally_update(rows.drop_last(), at, row, share);
    }
}

/// A row that is removed takes its share with it.
pub proof fn lemma_tally_remove<R>(rows: Seq<R>, at: int, share: spec_fn(R) -> int)
    requires
        0 <= at < rows.len(),
    ensures
        tally(rows.remove(at), share) == tally(rows, share) - share(rows[at]),
    decreases rows.len(),
{
    let fewer = rows.remove(at);
    if at == rows.len() - 1 {
        assert(fewer =~= rows.drop_last());
    } else {
        assert(fewer.drop_last() =~= rows.drop_last().remove(at));
        assert(fewer.last() == rows.last());
        lemma_tally_remove(rows.drop_last(), at, share);
    }
}

/// What a top-up adds to the total of a user.
pub open spec fn topup_share(user_id: i32) -> spec_fn(TopupRecord) -> int {
    |record: TopupRecord|
        if record.user_id == user_id {
            record.topup_amount as int
        } else {
            0
        }
}

/// What a withdrawal takes from the total of a user.
pub open spec fn withdraw_share(user_id: i32) -> spec_fn(WithdrawRecord) -> int {
    |record: WithdrawRecord|
        if record.user_id == user_id {
            record.withdraw_amount as int
        } else {
            0
        }
}

/// What a transfer adds to the total of a user: the amount for the receiver,
/// its negative for the sender.
pub open spec fn transfer_share(user_id: i32) -> spec_fn(TransferRecord) -> int {
    |record: TransferRecord|
        (if record.transfer_to == user_id {
            record.transfer_amount as int
        } else {
            0
        }) - (if record.transfer_from == user_id {
            record.transfer_amount as int
        } else {
            0
        })
}

/// What the total of a user is ahead of the user's top-ups.
pub open spec fn topup_gap(world: TopupWorld, user_id: i32) -> int {
    total_of(world.balances.rows, user_id) - tally(world.topups.rows(), topup_share(user_id))
}

/// What the total of a user is ahead of the user's withdrawals, which count
/// against it.
pub open spec fn withdraw_gap(world: WithdrawWorld, user_id: i32) -> int {
    total_of(world.balances.rows, user_id) + tally(
        world.withdraws.rows(),
        withdraw_share(user_id),
    )
}

/// What the total of a user is ahead of what transfers brought the user.
pub open spec fn transfer_gap(world: TransferWorld, user_id: i32) -> int {
    total_of(world.balances.rows, user_id) - tally(
        world.transfers.rows(),
        transfer_share(user_id),
    )
}

/// Creating a top-up keeps every user's total in step with the top-up
/// ledger: whether it goes through or fails, as long as no compensation
/// failed, no gap has changed.
pub proof fn lemma_topup_keeps_gap(world: TopupWorld, input: CreateTopupRequest, user_id: i32)
    requires
        world.wf(),
        world.run(TopupSaga::create(input)).1 is Ok || world.settles(TopupSaga::create(input)),
    ensures
        topup_gap(world.run(TopupSaga::create(input)).0, user_id) == topup_gap(world, user_id),
{
    lemma_create_topup(world, input);
    let (after, result) = world.run(TopupSaga::create(input));
    if result is Ok {
        lemma_tally_push(world.topups.rows(), result->Ok_0, topup_share(user_id));
    }
}

/// Amending a top-up without changing whose it is keeps every user's total in
/// step with the top-up ledger, as long as no compensation failed.
pub proof fn lemma_amended_topup_keeps_gap(
    world: TopupWorld,
    input: UpdateTopupRequest,
    user_id: i32,
)
    requires
        world.wf(),
        world.run(TopupSaga::update(input)).1 is Ok || world.settles(TopupSaga::update(input)),
        lookup(world.topups.rows(), input.topup_id) matches Some(previous) ==> previous.user_id
            == input.user_id,
    ensures
        topup_gap(world.run(TopupSaga::update(input)).0, user_id) == topup_gap(world, user_id),
{
    lemma_update_topup(world, input);
    let (after, result) = world.run(TopupSaga::update(input));
    if result is Ok {
        let at = index_of(world.topups.rows(), input.topup_id);
        assert(world.topups.rows()[at].key() == input.topup_id);
        lemma_lookup_at(world.topups.rows(), at);
        lemma_tally_update(world.topups.rows(), at, input.revised(), topup_share(user_id));
    }
}

/// Deleting a top-up leaves the balance as it was last computed: the owner's
/// total is then ahead of the ledger by the amount of the deleted record, and
/// no other gap has changed.
pub proof fn lemma_deleted_topup_opens_gap(world: TopupWorld, topup_id: i32, user_id: i32)
    requires
        world.wf(),
    ensures
        ({
            let (after, result) = world.run(TopupSaga::delete(topup_id));
            topup_gap(after, user_id) == topup_gap(world, user_id) + match result {
                Ok(record) => topup_share(user_id)(record),
                Err(_) => 0,
            }
        }),
{
    lemma_delete_topup(world, topup_id);
    let (after, result) = world.run(TopupSaga::delete(topup_id));
    if result is Ok {
        let at = index_of(world.topups.rows(), topup_id);
        assert(world.topups.rows()[at].key() == topup_id);
        lemma_lookup_at(world.topups.rows(), at);
        lemma_tally_remove(world.topups.rows(), at, topup_share(user_id));
    }
}

/// Creating a withdrawal keeps every user's total in step with the
/// withdrawal ledger: whether it goes through or fails, as long as no
/// compensation failed, no gap has changed.
pub proof fn lemma_withdrawal_keeps_gap(
    world: WithdrawWorld,
    input: CreateWithdrawRequest,
    user_id: i32,
)
    requires
        world.wf(),
        world.run(WithdrawSaga::create(input)).1 is Ok || world.settles(
            WithdrawSaga::create(input),
        ),
    ensures
        withdraw_gap(world.run(WithdrawSaga::create(input)).0, user_id) == withdraw_gap(
            world,
            user_id,
        ),
{
    lemma_create_withdraw(world, input);
    let (after, result) = world.run(WithdrawSaga::create(input));
    if result is Ok {
        lemma_tally_push(world.withdraws.rows(), result->Ok_0, withdraw_share(user_id));
    }
}

/// Amending a withdrawal without changing whose it is keeps every user's
/// total in step with the withdrawal ledger, as long as no compensation
/// failed.
pub proof fn lemma_amended_withdrawal_keeps_gap(
    world: WithdrawWorld,
    input: UpdateWithdrawRequest,
    user_id: i32,
)
    requires
        world.wf(),
        world.run(WithdrawSaga::update(input)).1 is Ok || world.settles(
            WithdrawSaga::update(input),
        ),
        lookup(world.withdraws.rows(), input.withdraw_id) matches Some(previous)
            ==> previous.user_id == input.user_id,
    ensures
        withdraw_gap(world.run(WithdrawSaga::update(input)).0, user_id) == withdraw_gap(
            world,
            user_id,
        ),
{
    lemma_update_withdraw(world, input);
    let (after, result) = world.run(WithdrawSaga::update(input));
    if result is Ok {
        let at = index_of(world.withdraws.rows(), input.withdraw_id);
        assert(world.withdraws.rows()[at].key() == input.withdraw_id);
        lemma_lookup_at(world.withdraws.rows(), at);
        lemma_tally_update(world.withdraws.rows(), at, input.revised(), withdraw_share(user_id));
    }
}

/// Deleting a withdrawal leaves the balance as it was last computed: the
/// owner's total is then behind the ledger by the amount of the deleted
/// record, and no other gap has changed.
pub proof fn lemma_deleted_withdrawal_opens_gap(
    world: WithdrawWorld,
    withdraw_id: i32,
    user_id: i32,
)
    requires
        world.wf(),
    ensures
        ({
            let (after, result) = world.run(WithdrawSaga::delete(withdraw_id));
            withdraw_gap(after, user_id) == withdraw_gap(world, user_id) - match result {
                Ok(record) => withdraw_share(user_id)(record),
                Err(_) => 0,
            }
        }),
{
    lemma_delete_withdraw(world, withdraw_id);
    let (after, result) = world.run(WithdrawSaga::delete(withdraw_id));
    if result is Ok {
        let at = index_of(world.withdraws.rows(), withdraw_id);
        assert(world.withdraws.rows()[at].key() == withdraw_id);
        lemma_lookup_at(world.withdraws.rows(), at);
        lemma_tally_remove(world.withdraws.rows(), at, withdraw_share(user_id));
    }
}

/// Creating a transfer keeps every user's total in step with the transfer
/// ledger: whether it goes through or fails, as long as no compensation
/// failed, no gap has changed.
pub proof fn lemma_transfer_keeps_gap(
    world: TransferWorld,
    input: CreateTransferRequest,
    user_id: i32,
)
    requires
        world.wf(),
        world.run(TransferSaga::create(input)).1 is Ok || world.settles(
            TransferSaga::create(input),
        ),
    ensures
        transfer_gap(world.run(TransferSaga::create(input)).0, user_id) == transfer_gap(
            world,
            user_id,
        ),
{
    lemma_create_transfer(world, input);
    let (after, result) = world.run(TransferSaga::create(input));
    if result is Ok {
        lemma_tally_push(world.transfers.rows(), result->Ok_0, transfer_share(user_id));
    }
}

/// Amending a transfer without changing its parties keeps every user's total
/// in step with the transfer ledger, as long as no compensation failed.
pub proof fn lemma_amended_transfer_keeps_gap(
    world: TransferWorld,
    input: UpdateTransferRequest,
    user_id: i32,
)
    requires
        world.wf(),
        world.run(TransferSaga::update(input)).1 is Ok || world.settles(
            TransferSaga::update(input),
        ),
        lookup(world.transfers.rows(), input.transfer_id) matches Some(previous)
            ==> previous.transfer_from == input.transfer_from && previous.transfer_to
            == input.transfer_to,
    ensures
        transfer_gap(world.run(TransferSaga::update(input)).0, user_id) == transfer_gap(
            world,
            user_id,
        ),
{
    lemma_update_transfer(world, input);
    let (after, result) = world.run(TransferSaga::update(input));
    if result is Ok {
        let at = index_of(world.transfers.rows(), input.transfer_id);
        assert(world.transfers.rows()[at].key() == input.transfer_id);
        lemma_lookup_at(world.transfers.rows(), at);
        lemma_tally_update(world.transfers.rows(), at, input.revised(), transfer_share(user_id));
    }
}

/// Deleting a transfer leaves the balances as they were last computed: the
/// receiver's total is then ahead of the ledger by the amount of the deleted
/// record, the sender's behind it by the same, and no other gap has changed.
pub proof fn lemma_deleted_transfer_opens_gap(
    world: TransferWorld,
    transfer_id: i32,
    user_id: i32,
)
    requires
        world.wf(),
    ensures
        ({
            let (after, result) = world.run(TransferSaga::delete(transfer_id));
            transfer_gap(after, user_id) == transfer_gap(world, user_id) + match result {
                Ok(record) => transfer_share(user_id)(record),
                Err(_) => 0,
            }
        }),
{
    lemma_delete_transfer(world, transfer_id);
    let (after, result) = world.run(TransferSaga::delete(transfer_id));
    if result is Ok {
        let at = index_of(world.transfers.rows(), transfer_id);
        assert(world.transfers.rows()[at].key() == transfer_id);
        lemma_lookup_at(world.transfers.rows(), at);
        lemma_tally_remove(world.transfers.rows(), at, transfer_share(user_id));
    }
}

} // verus!
