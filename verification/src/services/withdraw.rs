//! Withdrawals from a user's balance.

use crate::answers::{read_outcome, report_first, report_list, report_read};
use crate::directory::UserDirectory;
use crate::domain::{Balance, CreateWithdrawRequest, WithdrawRecord, UpdateWithdrawRequest};
use crate::errors::{AppError, Missing, Stage};
use crate::saga::withdraw::{WithdrawCommand, WithdrawReply, WithdrawSaga, WithdrawStep};
use crate::store::{fails_at, index_of, lookup, rows_of, Entry, Ledger, Table};
use crate::world::withdraw::{
    amendment_error, amendment_owed, amendment_settles, creation_error, creation_owed,
    creation_settles, debited, deletion_error, lemma_create_withdraw, lemma_delete_withdraw,
    lemma_update_withdraw, WithdrawWorld,
};
use vstd::prelude::*;

verus! {

/// The withdrawal operations over stores held in memory.
pub struct WithdrawService {
    withdraw_repository: Ledger<WithdrawRecord>,
    saldo_repository: Table<Balance>,
    user_repository: UserDirectory,
}

impl View for WithdrawService {
    type V = WithdrawWorld;

    closed spec fn view(&self) -> WithdrawWorld {
        WithdrawWorld {
            users: self.user_repository@,
            balances: self.saldo_repository@,
            withdraws: self.withdraw_repository@,
        }
    }
}

impl WithdrawService {
    /// The service's invariant: see [`WithdrawWorld::wf`].
    pub open spec fn wf(&self) -> bool {
        self@.wf()
    }

    /// The service over the given stores.
    pub fn new(
        withdraw_repository: Ledger<WithdrawRecord>,
        saldo_repository: Table<Balance>,
        user_repository: UserDirectory,
    ) -> (service: WithdrawService)
        requires
            withdraw_repository.wf(),
            saldo_repository.wf(),
        ensures
            service.wf(),
            service@.users == user_repository@,
            service@.balances == saldo_repository@,
            service@.withdraws == withdraw_repository@,
    {
        WithdrawService { withdraw_repository, saldo_repository, user_repository }
    }

    /// Hands the stores back.
    pub fn into_repositories(self) -> (stores: (Ledger<WithdrawRecord>, Table<Balance>, UserDirectory))
        requires
            self.wf(),
        ensures
            stores.0.wf(),
            stores.1.wf(),
            stores.0@ == self@.withdraws,
            stores.1@ == self@.balances,
            stores.2@ == self@.users,
    {
        (self.withdraw_repository, self.saldo_repository, self.user_repository)
    }

    /// Makes one storage call and reports how it went.
    pub fn perform(&mut self, command: WithdrawCommand) -> (reply: WithdrawReply)
        requires
            old(self).wf(),
        ensures
            final(self).wf(),
            (final(self)@, reply) == old(self)@.perform(command),
    {
        match command {
            WithdrawCommand::FindUser(user_id) => WithdrawReply::User(
                self.user_repository.contains(user_id),
            ),
            WithdrawCommand::CreateWithdraw(draft) => match self.withdraw_repository.create(draft) {
                Ok(record) => WithdrawReply::Withdraw(Some(record)),
                Err(_) => WithdrawReply::Failed,
            },
            WithdrawCommand::FindWithdraw(withdraw_id) => match self.withdraw_repository.get(withdraw_id) {
                Ok(record) => WithdrawReply::Withdraw(record),
                Err(_) => WithdrawReply::Failed,
            },
            WithdrawCommand::UpdateWithdraw(record) => match self.withdraw_repository.update(record) {
                Ok(record) => WithdrawReply::Withdraw(Some(record)),
                Err(_) => WithdrawReply::Failed,
            },
            WithdrawCommand::DeleteWithdraw(withdraw_id) => match self.withdraw_repository.delete(withdraw_id) {
                Ok(_) => WithdrawReply::Done,
                Err(_) => WithdrawReply::Failed,
            },
            WithdrawCommand::FindBalance(user_id) => match self.saldo_repository.get(user_id) {
                Ok(balance) => WithdrawReply::Balance(balance),
                Err(_) => WithdrawReply::Failed,
            },
            WithdrawCommand::UpdateBalance(balance) => match self.saldo_repository.replace(balance) {
                Ok(_) => WithdrawReply::Done,
                Err(_) => WithdrawReply::Failed,
            },
        }
    }

    /// Drives a machine against the stores until it finishes.
    pub fn settle(&mut self, saga: WithdrawSaga) -> (result: Result<WithdrawRecord, AppError>)
        requires
            old(self).wf(),
        ensures
            final(self).wf(),
            (final(self)@, result) == old(self)@.run(saga),
    {
        let mut current = saga;
        loop
            invariant
                self.wf(),
                self@.run(current) == old(self)@.run(saga),
            decreases current.remaining(),
        {
            match current.pending() {
                WithdrawStep::Finish(result) => {
                    return result;
                },
                WithdrawStep::Perform(command) => {
                    let reply = self.perform(command);
                    current = current.advance(reply);
                },
            }
        }
    }

    /// Reads a user's balance as it stands, without counting as a storage call.
    pub fn balance_of(&self, user_id: i32) -> (found: Option<Balance>)
        requires
            self.wf(),
        ensures
            found == lookup(self@.balances.rows, user_id),
    {
        self.saldo_repository.peek(user_id)
    }

    /// Reads a withdrawal as it stands, without counting as a storage call.
    pub fn withdrawal(&self, withdraw_id: i32) -> (found: Option<WithdrawRecord>)
        requires
            self.wf(),
        ensures
            found == lookup(self@.withdraws.rows(), withdraw_id),
    {
        self.withdraw_repository.peek(withdraw_id)
    }

    /// Every withdrawal, oldest first.
    pub fn get_withdraws(&mut self) -> (result: Result<Vec<WithdrawRecord>, AppError>)
        requires
            old(self).wf(),
        ensures
            final(self).wf(),
            final(self)@.users == old(self)@.users,
            final(self)@.balances == old(self)@.balances,
            final(self)@.withdraws == old(self)@.withdraws.served(),
            match result {
                Ok(rows) => !fails_at(old(self)@.withdraws.faults(), 0) && rows@ == old(self)@.withdraws.rows(),
                Err(error) => fails_at(old(self)@.withdraws.faults(), 0) && error
                    == AppError::StorageError(Stage::LedgerRead),
            },
    {
        match self.withdraw_repository.all() {
            Ok(rows) => Ok(rows),
            Err(_) => Err(AppError::StorageError(Stage::LedgerRead)),
        }
    }

    /// The withdrawal with the given key.
    pub fn get_withdraw(&mut self, id: i32) -> (result: Result<WithdrawRecord, AppError>)
        requires
            old(self).wf(),
        ensures
            final(self).wf(),
            final(self)@.users == old(self)@.users,
            final(self)@.balances == old(self)@.balances,
            final(self)@.withdraws == old(self)@.withdraws.served(),
            result == read_outcome(old(self)@.withdraws.get(id).1, Missing::Withdraw(id)),
    {
        report_read(self.withdraw_repository.get(id), Missing::Withdraw(id))
    }

    /// The withdrawals of a user, oldest first, or `None` where there are none.
    /// The user has to exist.
    pub fn get_withdraw_users(&mut self, id: i32) -> (result: Result<Option<Vec<WithdrawRecord>>, AppError>)
        requires
            old(self).wf(),
        ensures
            final(self).wf(),
            final(self)@.users == old(self)@.users,
            final(self)@.balances == old(self)@.balances,
            final(self)@.withdraws.rows() == old(self)@.withdraws.rows(),
            !old(self)@.users.contains(id) ==> final(self)@ == old(self)@ && result == Err::<
                Option<Vec<WithdrawRecord>>,
                AppError,
            >(AppError::NotFound(Missing::User(id))),
            old(self)@.users.contains(id) ==> final(self)@.withdraws == old(self)@.withdraws.served()
                && (match result {
                Ok(None) => !fails_at(old(self)@.withdraws.faults(), 0) && rows_of(
                    old(self)@.withdraws.rows(),
                    id,
                ).len() == 0,
                Ok(Some(rows)) => !fails_at(old(self)@.withdraws.faults(), 0) && rows@.len() > 0
                    && rows@ == rows_of(old(self)@.withdraws.rows(), id),
                Err(error) => fails_at(old(self)@.withdraws.faults(), 0) && error
                    == AppError::StorageError(Stage::LedgerRead),
            }),
    {
        if !self.user_repository.contains(id) {
            return Err(AppError::NotFound(Missing::User(id)));
        }
        match self.withdraw_repository.list(id) {
            Ok(rows) => Ok(report_list(rows)),
            Err(_) => Err(AppError::StorageError(Stage::LedgerRead)),
        }
    }

    /// The oldest withdrawal of a user, if any. The user has to exist.
    pub fn get_withdraw_user(&mut self, id: i32) -> (result: Result<Option<WithdrawRecord>, AppError>)
        requires
            old(self).wf(),
        ensures
            final(self).wf(),
            final(self)@.users == old(self)@.users,
            final(self)@.balances == old(self)@.balances,
            final(self)@.withdraws.rows() == old(self)@.withdraws.rows(),
            !old(self)@.users.contains(id) ==> final(self)@ == old(self)@ && result == Err::<
                Option<WithdrawRecord>,
                AppError,
            >(AppError::NotFound(Missing::User(id))),
            old(self)@.users.contains(id) ==> final(self)@.withdraws == old(self)@.withdraws.served()
                && (match result {
                Ok(None) => !fails_at(old(self)@.withdraws.faults(), 0) && rows_of(
                    old(self)@.withdraws.rows(),
                    id,
                ).len() == 0,
                Ok(Some(row)) => !fails_at(old(self)@.withdraws.faults(), 0) && rows_of(
                    old(self)@.withdraws.rows(),
                    id,
                ).len() > 0 && row == rows_of(old(self)@.withdraws.rows(), id)[0],
                Err(error) => fails_at(old(self)@.withdraws.faults(), 0) && error
                    == AppError::StorageError(Stage::LedgerRead),
            }),
    {
        if !self.user_repository.contains(id) {
            return Err(AppError::NotFound(Missing::User(id)));
        }
        match self.withdraw_repository.list(id) {
            Ok(rows) => Ok(report_first(&rows)),
            Err(_) => Err(AppError::StorageError(Stage::LedgerRead)),
        }
    }

    /// Records a withdrawal and lowers the user's balance by its amount.
    ///
    /// The request goes through exactly where `creation_owed` holds: among
    /// other things the balance has to cover the amount. Then the record
    /// stands in the ledger under the next key, the user's total is lower by
    /// the amount, and the balance notes amount and time of the withdrawal.
    /// Otherwise the error is `creation_error`, and where the compensating
    /// call did not fail (`creation_settles`), balances and ledger hold what
    /// they held before the call.
    pub fn create_withdraw(&mut self, input: &CreateWithdrawRequest) -> (result: Result<
        WithdrawRecord,
        AppError,
    >)
        requires
            old(self).wf(),
        ensures
            final(self).wf(),
            (final(self)@, result) == old(self)@.run(WithdrawSaga::create(*input)),
            final(self)@.users == old(self)@.users,
            result is Ok <==> creation_owed(old(self)@, *input),
            result is Ok ==> {
                &&& result == Ok::<WithdrawRecord, AppError>(
                    input.draft().keyed(old(self)@.withdraws.next_id),
                )
                &&& final(self)@.withdraws.rows() == old(self)@.withdraws.rows().push(
                    input.draft().keyed(old(self)@.withdraws.next_id),
                )
                &&& debited(
                    old(self)@.balances.rows,
                    final(self)@.balances.rows,
                    input.draft().keyed(old(self)@.withdraws.next_id),
                    input.withdraw_amount as int,
                )
            },
            result is Err ==> result == Err::<WithdrawRecord, AppError>(
                creation_error(old(self)@, *input),
            ),
            result is Err && creation_settles(old(self)@, *input) ==> final(self)@.same_rows(
                old(self)@,
            ),
    {
        proof {
            lemma_create_withdraw(self@, *input);
        }
        self.settle(WithdrawSaga::begin_create(input))
    }

    /// Changes a recorded withdrawal and takes the change of its amount (new
    /// minus old) from the user's balance.
    ///
    /// The request goes through exactly where `amendment_owed` holds: among
    /// other things the balance has to cover the change. Then the record
    /// reads as the request asks and the total is lower by the change of the
    /// amount. Otherwise the error is `amendment_error`, and where the
    /// compensating call did not fail (`amendment_settles`), balances and
    /// ledger hold what they held before the call.
    pub fn update_withdraw(&mut self, input: &UpdateWithdrawRequest) -> (result: Result<
        WithdrawRecord,
        AppError,
    >)
        requires
            old(self).wf(),
        ensures
            final(self).wf(),
            (final(self)@, result) == old(self)@.run(WithdrawSaga::update(*input)),
            final(self)@.users == old(self)@.users,
            result is Ok <==> amendment_owed(old(self)@, *input),
            result is Ok ==> {
                &&& result == Ok::<WithdrawRecord, AppError>(input.revised())
                &&& final(self)@.withdraws.rows() == old(self)@.withdraws.rows().update(
                    index_of(old(self)@.withdraws.rows(), input.withdraw_id),
                    input.revised(),
                )
                &&& debited(
                    old(self)@.balances.rows,
                    final(self)@.balances.rows,
                    input.revised(),
                    input.withdraw_amount - lookup(
                        old(self)@.withdraws.rows(),
                        input.withdraw_id,
                    )->Some_0.withdraw_amount,
                )
            },
            result is Err ==> result == Err::<WithdrawRecord, AppError>(
                amendment_error(old(self)@, *input),
            ),
            result is Err && amendment_settles(old(self)@, *input) ==> final(self)@.same_rows(
                old(self)@,
            ),
    {
        proof {
            lemma_update_withdraw(self@, *input);
        }
        self.settle(WithdrawSaga::begin_update(input))
    }

    /// Deletes a withdrawal from the ledger. The balance stays as the
    /// withdrawal left it.
    ///
    /// It succeeds exactly where the ledger answers two calls and holds the
    /// withdrawal, and then only that record is gone. Otherwise the error is
    /// `deletion_error` and the ledger holds what it held.
    pub fn delete_withdraw(&mut self, id: i32) -> (result: Result<(), AppError>)
        requires
            old(self).wf(),
        ensures
            final(self).wf(),
            final(self)@ == old(self)@.run(WithdrawSaga::delete(id)).0,
            final(self)@.users == old(self)@.users,
            final(self)@.balances == old(self)@.balances,
            result is Ok <==> !fails_at(old(self)@.withdraws.faults(), 0) && !fails_at(
                old(self)@.withdraws.faults(),
                1,
            ) && lookup(old(self)@.withdraws.rows(), id) is Some,
            result is Ok ==> final(self)@.withdraws.rows() == old(self)@.withdraws.rows().remove(
                index_of(old(self)@.withdraws.rows(), id),
            ),
            result is Err ==> result == Err::<(), AppError>(deletion_error(old(self)@, id))
                && final(self)@.withdraws.rows() == old(self)@.withdraws.rows(),
    {
        proof {
            lemma_delete_withdraw(self@, id);
        }
        match self.settle(WithdrawSaga::begin_delete(id)) {
            Ok(_) => Ok(()),
            Err(error) => Err(error),
        }
    }
}

} // verus!
