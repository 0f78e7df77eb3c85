//! Top-ups of a user's balance.

use crate::answers::{read_outcome, report_first, report_list, report_read};
use crate::directory::UserDirectory;
use crate::domain::{Balance, CreateTopupRequest, TopupRecord, UpdateTopupRequest};
use crate::errors::{AppError, Missing, Stage};
use crate::saga::topup::{TopupCommand, TopupReply, TopupSaga, TopupStep};
use crate::store::{fails_at, index_of, lookup, rows_of, Entry, Ledger, Table};
use crate::world::topup::{
    amendment_error, amendment_owed, amendment_settles, creation_error, creation_owed,
    creation_settles, credited, deletion_error, lemma_create_topup, lemma_delete_topup,
    lemma_update_topup, TopupWorld,
};
use vstd::prelude::*;

verus! {

/// The top-up operations over stores held in memory.
pub struct TopupService {
    topup_repository: Ledger<TopupRecord>,
    saldo_repository: Table<Balance>,
    user_repository: UserDirectory,
}

impl View for TopupService {
    type V = TopupWorld;

    closed spec fn view(&self) -> TopupWorld {
        TopupWorld {
            users: self.user_repository@,
            balances: self.saldo_repository@,
            topups: self.topup_repository@,
        }
    }
}

impl TopupService {
    /// The service's invariant: see [`TopupWorld::wf`].
    pub open spec fn wf(&self) -> bool {
        self@.wf()
    }

    /// The service over the given stores.
    pub fn new(
        topup_repository: Ledger<TopupRecord>,
        saldo_repository: Table<Balance>,
        user_repository: UserDirectory,
    ) -> (service: TopupService)
        requires
            topup_repository.wf(),
            saldo_repository.wf(),
        ensures
            service.wf(),
            service@.users == user_repository@,
            service@.balances == saldo_repository@,
            service@.topups == topup_repository@,
    {
        TopupService { topup_repository, saldo_repository, user_repository }
    }

    /// Hands the stores back.
    pub fn into_repositories(self) -> (stores: (Ledger<TopupRecord>, Table<Balance>, UserDirectory))
        requires
            self.wf(),
        ensures
            stores.0.wf(),
            stores.1.wf(),
            stores.0@ == self@.topups,
            stores.1@ == self@.balances,
            stores.2@ == self@.users,
    {
        (self.topup_repository, self.saldo_repository, self.user_repository)
    }

    /// Makes one storage call and reports how it went.
    pub fn perform(&mut self, command: TopupCommand) -> (reply: TopupReply)
        requires
            old(self).wf(),
        ensures
            final(self).wf(),
            (final(self)@, reply) == old(self)@.perform(command),
    {
        match command {
            TopupCommand::FindUser(user_id) => TopupReply::User(
                self.user_repository.contains(user_id),
            ),
            TopupCommand::CreateTopup(draft) => match self.topup_repository.create(draft) {
                Ok(record) => TopupReply::Topup(Some(record)),
                Err(_) => TopupReply::Failed,
            },
            TopupCommand::FindTopup(topup_id) => match self.topup_repository.get(topup_id) {
                Ok(record) => TopupReply::Topup(record),
                Err(_) => TopupReply::Failed,
            },
            TopupCommand::UpdateTopup(record) => match self.topup_repository.update(record) {
                Ok(record) => TopupReply::Topup(Some(record)),
                Err(_) => TopupReply::Failed,
            },
            TopupCommand::DeleteTopup(topup_id) => match self.topup_repository.delete(topup_id) {
                Ok(_) => TopupReply::Done,
                Err(_) => TopupReply::Failed,
            },
            TopupCommand::FindBalance(user_id) => match self.saldo_repository.get(user_id) {
                Ok(balance) => TopupReply::Balance(balance),
                Err(_) => TopupReply::Failed,
            },
            TopupCommand::CreateBalance(balance) => match self.saldo_repository.insert(balance) {
                Ok(_) => TopupReply::Done,
                Err(_) => TopupReply::Failed,
            },
            TopupCommand::UpdateBalance(balance) => match self.saldo_repository.replace(balance) {
                Ok(_) => TopupReply::Done,
                Err(_) => TopupReply::Failed,
            },
        }
    }

    /// Drives a machine against the stores until it finishes.
    pub fn settle(&mut self, saga: TopupSaga) -> (result: Result<TopupRecord, AppError>)
        requires
            old(self).wf(),
        ensures
            final(self).wf(),
            (final(self)@, result) == old(self)@.run(saga),
    {
        let mut current = saga;
        loop
            invariant
                self.wf(),
                self@.run(current) == old(self)@.run(saga),
            decreases current.remaining(),
        {
            match current.pending() {
                TopupStep::Finish(result) => {
                    return result;
                },
                TopupStep::Perform(command) => {
                    let reply = self.perform(command);
                    current = current.advance(reply);
                },
            }
        }
    }

    /// Reads a user's balance as it stands, without counting as a storage call.
    pub fn balance_of(&self, user_id: i32) -> (found: Option<Balance>)
        requires
            self.wf(),
        ensures
            found == lookup(self@.balances.rows, user_id),
    {
        self.saldo_repository.peek(user_id)
    }

    /// Reads a top-up as it stands, without counting as a storage call.
    pub fn topup(&self, topup_id: i32) -> (found: Option<TopupRecord>)
        requires
            self.wf(),
        ensures
            found == lookup(self@.topups.rows(), topup_id),
    {
        self.topup_repository.peek(topup_id)
    }

    /// Every top-up, oldest first.
    pub fn get_topups(&mut self) -> (result: Result<Vec<TopupRecord>, AppError>)
        requires
            old(self).wf(),
        ensures
            final(self).wf(),
            final(self)@.users == old(self)@.users,
            final(self)@.balances == old(self)@.balances,
            final(self)@.topups == old(self)@.topups.served(),
            match result {
                Ok(rows) => !fails_at(old(self)@.topups.faults(), 0) && rows@ == old(self)@.topups.rows(),
                Err(error) => fails_at(old(self)@.topups.faults(), 0) && error
                    == AppError::StorageError(Stage::LedgerRead),
            },
    {
        match self.topup_repository.all() {
            Ok(rows) => Ok(rows),
            Err(_) => Err(AppError::StorageError(Stage::LedgerRead)),
        }
    }

    /// The top-up with the given key.
    pub fn get_topup(&mut self, id: i32) -> (result: Result<TopupRecord, AppError>)
        requires
            old(self).wf(),
        ensures
            final(self).wf(),
            final(self)@.users == old(self)@.users,
            final(self)@.balances == old(self)@.balances,
            final(self)@.topups == old(self)@.topups.served(),
            result == read_outcome(old(self)@.topups.get(id).1, Missing::Topup(id)),
    {
        report_read(self.topup_repository.get(id), Missing::Topup(id))
    }

    /// The top-ups of a user, oldest first, or `None` where there are none.
    /// The user has to exist.
    pub fn get_topup_users(&mut self, id: i32) -> (result: Result<Option<Vec<TopupRecord>>, AppError>)
        requires
            old(self).wf(),
        ensures
            final(self).wf(),
            final(self)@.users == old(self)@.users,
            final(self)@.balances == old(self)@.balances,
            final(self)@.topups.rows() == old(self)@.topups.rows(),
            !old(self)@.users.contains(id) ==> final(self)@ == old(self)@ && result == Err::<
                Option<Vec<TopupRecord>>,
                AppError,
            >(AppError::NotFound(Missing::User(id))),
            old(self)@.users.contains(id) ==> final(self)@.topups == old(self)@.topups.served()
                && (match result {
                Ok(None) => !fails_at(old(self)@.topups.faults(), 0) && rows_of(
                    old(self)@.topups.rows(),
                    id,
                ).len() == 0,
                Ok(Some(rows)) => !fails_at(old(self)@.topups.faults(), 0) && rows@.len() > 0
                    && rows@ == rows_of(old(self)@.topups.rows(), id),
                Err(error) => fails_at(old(self)@.topups.faults(), 0) && error
                    == AppError::StorageError(Stage::LedgerRead),
            }),
    {
        if !self.user_repository.contains(id) {
            return Err(AppError::NotFound(Missing::User(id)));
        }
        match self.topup_repository.list(id) {
            Ok(rows) => Ok(report_list(rows)),
            Err(_) => Err(AppError::StorageError(Stage::LedgerRead)),
        }
    }

    /// The oldest top-up of a user, if any. The user has to exist.
    pub fn get_topup_user(&mut self, id: i32) -> (result: Result<Option<TopupRecord>, AppError>)
        requires
            old(self).wf(),
        ensures
            final(self).wf(),
            final(self)@.users == old(self)@.users,
            final(self)@.balances == old(self)@.balances,
            final(self)@.topups.rows() == old(self)@.topups.rows(),
            !old(self)@.users.contains(id) ==> final(self)@ == old(self)@ && result == Err::<
                Option<TopupRecord>,
                AppError,
            >(AppError::NotFound(Missing::User(id))),
            old(self)@.users.contains(id) ==> final(self)@.topups == old(self)@.topups.served()
                && (match result {
                Ok(None) => !fails_at(old(self)@.topups.faults(), 0) && rows_of(
                    old(self)@.topups.rows(),
                    id,
                ).len() == 0,
                Ok(Some(row)) => !fails_at(old(self)@.topups.faults(), 0) && rows_of(
                    old(self)@.topups.rows(),
                    id,
                ).len() > 0 && row == rows_of(old(self)@.topups.rows(), id)[0],
                Err(error) => fails_at(old(self)@.topups.faults(), 0) && error
                    == AppError::StorageError(Stage::LedgerRead),
            }),
    {
        if !self.user_repository.contains(id) {
            return Err(AppError::NotFound(Missing::User(id)));
        }
        match self.topup_repository.list(id) {
            Ok(rows) => Ok(report_first(&rows)),
            Err(_) => Err(AppError::StorageError(Stage::LedgerRead)),
        }
    }

    /// Records a top-up and raises the user's balance by its amount.
    ///
    /// The request goes through exactly where `creation_owed` holds. Then the
    /// record stands in the ledger under the next key, and the user's total is
    /// higher by the amount; a user who had no balance has one now, with the
    /// amount as its total. Otherwise the error is `creation_error`, and where
    /// the compensating call did not fail (`creation_settles`), balances and
    /// ledger hold what they held before the call.
    pub fn create_topup(&mut self, input: &CreateTopupRequest) -> (result: Result<
        TopupRecord,
        AppError,
    >)
        requires
            old(self).wf(),
        ensures
            final(self).wf(),
            (final(self)@, result) == old(self)@.run(TopupSaga::create(*input)),
            final(self)@.users == old(self)@.users,
            result is Ok <==> creation_owed(old(self)@, *input),
            result is Ok ==> {
                &&& result == Ok::<TopupRecord, AppError>(
                    input.draft().keyed(old(self)@.topups.next_id),
                )
                &&& final(self)@.topups.rows() == old(self)@.topups.rows().push(
                    input.draft().keyed(old(self)@.topups.next_id),
                )
                &&& credited(
                    old(self)@.balances.rows,
                    final(self)@.balances.rows,
                    input.user_id,
                    input.topup_amount as int,
                )
            },
            result is Err ==> result == Err::<TopupRecord, AppError>(
                creation_error(old(self)@, *input),
            ),
            result is Err && creation_settles(old(self)@, *input) ==> final(self)@.same_rows(
                old(self)@,
            ),
    {
        proof {
            lemma_create_topup(self@, *input);
        }
        self.settle(TopupSaga::begin_create(input))
    }

    /// Changes a recorded top-up and adds the change of its amount (new minus
    /// old) to the user's balance.
    ///
    /// The request goes through exactly where `amendment_owed` holds. Then the
    /// record reads as the request asks and the total has changed by the
    /// change of the amount. Otherwise the error is `amendment_error`, and
    /// where the compensating call did not fail (`amendment_settles`),
    /// balances and ledger hold what they held before the call.
    pub fn update_topup(&mut self, input: &UpdateTopupRequest) -> (result: Result<
        TopupRecord,
        AppError,
    >)
        requires
            old(self).wf(),
        ensures
            final(self).wf(),
            (final(self)@, result) == old(self)@.run(TopupSaga::update(*input)),
            final(self)@.users == old(self)@.users,
            result is Ok <==> amendment_owed(old(self)@, *input),
            result is Ok ==> {
                &&& result == Ok::<TopupRecord, AppError>(input.revised())
                &&& final(self)@.topups.rows() == old(self)@.topups.rows().update(
                    index_of(old(self)@.topups.rows(), input.topup_id),
                    input.revised(),
                )
                &&& credited(
                    old(self)@.balances.rows,
                    final(self)@.balances.rows,
                    input.user_id,
                    input.topup_amount - lookup(
                        old(self)@.topups.rows(),
                        input.topup_id,
                    )->Some_0.topup_amount,
                )
            },
            result is Err ==> result == Err::<TopupRecord, AppError>(
                amendment_error(old(self)@, *input),
            ),
            result is Err && amendment_settles(old(self)@, *input) ==> final(self)@.same_rows(
                old(self)@,
            ),
    {
        proof {
            lemma_update_topup(self@, *input);
        }
        self.settle(TopupSaga::begin_update(input))
    }

    /// Deletes a top-up from the ledger. The balance stays as the top-up left
    /// it.
    ///
    /// It succeeds exactly where the ledger answers two calls and holds the
    /// top-up, and then only that record is gone. Otherwise the error is
    /// `deletion_error` and the ledger holds what it held.
    pub fn delete_topup(&mut self, id: i32) -> (result: Result<(), AppError>)
        requires
            old(self).wf(),
        ensures
            final(self).wf(),
            final(self)@ == old(self)@.run(TopupSaga::delete(id)).0,
            final(self)@.users == old(self)@.users,
            final(self)@.balances == old(self)@.balances,
            result is Ok <==> !fails_at(old(self)@.topups.faults(), 0) && !fails_at(
                old(self)@.topups.faults(),
                1,
            ) && lookup(old(self)@.topups.rows(), id) is Some,
            result is Ok ==> final(self)@.topups.rows() == old(self)@.topups.rows().remove(
                index_of(old(self)@.topups.rows(), id),
            ),
            result is Err ==> result == Err::<(), AppError>(deletion_error(old(self)@, id))
                && final(self)@.topups.rows() == old(self)@.topups.rows(),
    {
        proof {
            lemma_delete_topup(self@, id);
        }
        match self.settle(TopupSaga::begin_delete(id)) {
            Ok(_) => Ok(()),
            Err(error) => Err(error),
        }
    }
}

} // verus!
