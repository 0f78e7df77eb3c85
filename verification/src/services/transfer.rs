//! Transfers between the balances of two users.

use crate::answers::{read_outcome, report_first, report_list, report_read};
use crate::directory::UserDirectory;
use crate::domain::{Balance, CreateTransferRequest, TransferRecord, UpdateTransferRequest};
use crate::errors::{AppError, Missing, Stage};
use crate::saga::transfer::{TransferCommand, TransferReply, TransferSaga, TransferStep};
use crate::store::{fails_at, index_of, lookup, rows_of, Entry, Ledger, Table};
use crate::world::transfer::{
    amendment_error, amendment_owed, amendment_settles, creation_error, creation_owed,
    creation_settles, deletion_error, lemma_create_transfer, lemma_delete_transfer,
    lemma_update_transfer, moved, TransferWorld,
};
use vstd::prelude::*;

verus! {

/// The transfer operations over stores held in memory.
pub struct TransferService {
    transfer_repository: Ledger<TransferRecord>,
    saldo_repository: Table<Balance>,
    user_repository: UserDirectory,
}

impl View for TransferService {
    type V = TransferWorld;

    closed spec fn view(&self) -> TransferWorld {
        TransferWorld {
            users: self.user_repository@,
            balances: self.saldo_repository@,
            transfers: self.transfer_repository@,
        }
    }
}

impl TransferService {
    /// The service's invariant: see [`TransferWorld::wf`].
    pub open spec fn wf(&self) -> bool {
        self@.wf()
    }

    /// The service over the given stores.
    pub fn new(
        transfer_repository: Ledger<TransferRecord>,
        saldo_repository: Table<Balance>,
        user_repository: UserDirectory,
    ) -> (service: TransferService)
        requires
            transfer_repository.wf(),
            saldo_repository.wf(),
        ensures
            service.wf(),
            service@.users == user_repository@,
            service@.balances == saldo_repository@,
            service@.transfers == transfer_repository@,
    {
        TransferService { transfer_repository, saldo_repository, user_repository }
    }

    /// Hands the stores back.
    pub fn into_repositories(self) -> (stores: (Ledger<TransferRecord>, Table<Balance>, UserDirectory))
        requires
            self.wf(),
        ensures
            stores.0.wf(),
            stores.1.wf(),
            stores.0@ == self@.transfers,
            stores.1@ == self@.balances,
            stores.2@ == self@.users,
    {
        (self.transfer_repository, self.saldo_repository, self.user_repository)
    }

    /// Makes one storage call and reports how it went.
    pub fn perform(&mut self, command: TransferCommand) -> (reply: TransferReply)
        requires
            old(self).wf(),
        ensures
            final(self).wf(),
            (final(self)@, reply) == old(self)@.perform(command),
    {
        match command {
            TransferCommand::FindUser(user_id) => TransferReply::User(
                self.user_repository.contains(user_id),
            ),
            TransferCommand::CreateTransfer(draft) => match self.transfer_repository.create(draft) {
                Ok(record) => TransferReply::Transfer(Some(record)),
                Err(_) => TransferReply::Failed,
            },
            TransferCommand::FindTransfer(transfer_id) => match self.transfer_repository.get(
                transfer_id,
            ) {
                Ok(record) => TransferReply::Transfer(record),
                Err(_) => TransferReply::Failed,
            },
            TransferCommand::UpdateTransfer(record) => match self.transfer_repository.update(
                record,
            ) {
                Ok(record) => TransferReply::Transfer(Some(record)),
                Err(_) => TransferReply::Failed,
            },
            TransferCommand::DeleteTransfer(transfer_id) => match self.transfer_repository.delete(
                transfer_id,
            ) {
                Ok(_) => TransferReply::Done,
                Err(_) => TransferReply::Failed,
            },
            TransferCommand::FindBalance(user_id) => match self.saldo_repository.get(user_id) {
                Ok(balance) => TransferReply::Balance(balance),
                Err(_) => TransferReply::Failed,
            },
            TransferCommand::UpdateBalance(balance) => match self.saldo_repository.replace(
                balance,
            ) {
                Ok(_) => TransferReply::Done,
                Err(_) => TransferReply::Failed,
            },
        }
    }

    /// Drives a machine against the stores until it finishes.
    pub fn settle(&mut self, saga: TransferSaga) -> (result: Result<TransferRecord, AppError>)
        requires
            old(self).wf(),
        ensures
            final(self).wf(),
            (final(self)@, result) == old(self)@.run(saga),
    {
        let mut current = saga;
        loop
            invariant
                self.wf(),
                self@.run(current) == old(self)@.run(saga),
            decreases current.remaining(),
        {
            match current.pending() {
                TransferStep::Finish(result) => {
                    return result;
                },
                TransferStep::Perform(command) => {
                    let reply = self.perform(command);
                    current = current.advance(reply);
                },
            }
        }
    }

    /// Reads a user's balance as it stands, without counting as a storage call.
    pub fn balance_of(&self, user_id: i32) -> (found: Option<Balance>)
        requires
            self.wf(),
        ensures
            found == lookup(self@.balances.rows, user_id),
    {
        self.saldo_repository.peek(user_id)
    }

    /// Reads a transfer as it stands, without counting as a storage call.
    pub fn transfer(&self, transfer_id: i32) -> (found: Option<TransferRecord>)
        requires
            self.wf(),
        ensures
            found == lookup(self@.transfers.rows(), transfer_id),
    {
        self.transfer_repository.peek(transfer_id)
    }

    /// Every transfer, oldest first.
    pub fn get_transfers(&mut self) -> (result: Result<Vec<TransferRecord>, AppError>)
        requires
            old(self).wf(),
        ensures
            final(self).wf(),
            final(self)@.users == old(self)@.users,
            final(self)@.balances == old(self)@.balances,
            final(self)@.transfers == old(self)@.transfers.served(),
            match result {
                Ok(rows) => !fails_at(old(self)@.transfers.faults(), 0) && rows@ == old(self)@.transfers.rows(),
                Err(error) => fails_at(old(self)@.transfers.faults(), 0) && error
                    == AppError::StorageError(Stage::LedgerRead),
            },
    {
        match self.transfer_repository.all() {
            Ok(rows) => Ok(rows),
            Err(_) => Err(AppError::StorageError(Stage::LedgerRead)),
        }
    }

    /// The transfer with the given key.
    pub fn get_transfer(&mut self, id: i32) -> (result: Result<TransferRecord, AppError>)
        requires
            old(self).wf(),
        ensures
            final(self).wf(),
            final(self)@.users == old(self)@.users,
            final(self)@.balances == old(self)@.balances,
            final(self)@.transfers == old(self)@.transfers.served(),
            result == read_outcome(old(self)@.transfers.get(id).1, Missing::Transfer(id)),
    {
        report_read(self.transfer_repository.get(id), Missing::Transfer(id))
    }

    /// The transfers that a user sent or received, oldest first, or `None`
    /// where there are none. The user has to exist.
    pub fn get_transfer_users(&mut self, id: i32) -> (result: Result<
        Option<Vec<TransferRecord>>,
        AppError,
    >)
        requires
            old(self).wf(),
        ensures
            final(self).wf(),
            final(self)@.users == old(self)@.users,
            final(self)@.balances == old(self)@.balances,
            final(self)@.transfers.rows() == old(self)@.transfers.rows(),
            !old(self)@.users.contains(id) ==> final(self)@ == old(self)@ && result == Err::<
                Option<Vec<TransferRecord>>,
                AppError,
            >(AppError::NotFound(Missing::User(id))),
            old(self)@.users.contains(id) ==> final(self)@.transfers == old(self)@.transfers.served() && (match result {
                Ok(None) => !fails_at(old(self)@.transfers.faults(), 0) && rows_of(
                    old(self)@.transfers.rows(),
                    id,
                ).len() == 0,
                Ok(Some(rows)) => !fails_at(old(self)@.transfers.faults(), 0) && rows@.len() > 0
                    && rows@ == rows_of(old(self)@.transfers.rows(), id),
                Err(error) => fails_at(old(self)@.transfers.faults(), 0) && error
                    == AppError::StorageError(Stage::LedgerRead),
            }),
    {
        if !self.user_repository.contains(id) {
            return Err(AppError::NotFound(Missing::User(id)));
        }
        match self.transfer_repository.list(id) {
            Ok(rows) => Ok(report_list(rows)),
            Err(_) => Err(AppError::StorageError(Stage::LedgerRead)),
        }
    }

    /// The oldest transfer that a user sent or received, if any. The user has
    /// to exist.
    pub fn get_transfer_user(&mut self, id: i32) -> (result: Result<
        Option<TransferRecord>,
        AppError,
    >)
        requires
            old(self).wf(),
        ensures
            final(self).wf(),
            final(self)@.users == old(self)@.users,
            final(self)@.balances == old(self)@.balances,
            final(self)@.transfers.rows() == old(self)@.transfers.rows(),
            !old(self)@.users.contains(id) ==> final(self)@ == old(self)@ && result == Err::<
                Option<TransferRecord>,
                AppError,
            >(AppError::NotFound(Missing::User(id))),
            old(self)@.users.contains(id) ==> final(self)@.transfers == old(self)@.transfers.served() && (match result {
                Ok(None) => !fails_at(old(self)@.transfers.faults(), 0) && rows_of(
                    old(self)@.transfers.rows(),
                    id,
                ).len() == 0,
                Ok(Some(row)) => !fails_at(old(self)@.transfers.faults(), 0) && rows_of(
                    old(self)@.transfers.rows(),
                    id,
                ).len() > 0 && row == rows_of(old(self)@.transfers.rows(), id)[0],
                Err(error) => fails_at(old(self)@.transfers.faults(), 0) && error
                    == AppError::StorageError(Stage::LedgerRead),
            }),
    {
        if !self.user_repository.contains(id) {
            return Err(AppError::NotFound(Missing::User(id)));
        }
        match self.transfer_repository.list(id) {
            Ok(rows) => Ok(report_first(&rows)),
            Err(_) => Err(AppError::StorageError(Stage::LedgerRead)),
        }
    }

    /// Moves an amount from one user's balance to another's and records it.
    ///
    /// The request goes through exactly where `creation_owed` holds. Then the
    /// record stands in the ledger under the next key, the sender's total is
    /// lower by the amount and the receiver's higher by it, and no other
    /// balance has changed. Otherwise the error is `creation_error`, and where
    /// no compensating call failed (`creation_settles`), balances and ledger
    /// hold what they held before the call.
    pub fn create_transfer(&mut self, input: &CreateTransferRequest) -> (result: Result<
        TransferRecord,
        AppError,
    >)
        requires
            old(self).wf(),
        ensures
            final(self).wf(),
            (final(self)@, result) == old(self)@.run(TransferSaga::create(*input)),
            final(self)@.users == old(self)@.users,
            result is Ok <==> creation_owed(old(self)@, *input),
            result is Ok ==> {
                &&& result == Ok::<TransferRecord, AppError>(
                    input.draft().keyed(old(self)@.transfers.next_id),
                )
                &&& final(self)@.transfers.rows() == old(self)@.transfers.rows().push(
                    input.draft().keyed(old(self)@.transfers.next_id),
                )
                &&& moved(
                    old(self)@.balances.rows,
                    final(self)@.balances.rows,
                    input.transfer_from,
                    input.transfer_to,
                    input.transfer_amount as int,
                )
            },
            result is Err ==> result == Err::<TransferRecord, AppError>(
                creation_error(old(self)@, *input),
            ),
            result is Err && creation_settles(old(self)@, *input) ==> final(self)@.same_rows(
                old(self)@,
            ),
    {
        proof {
            lemma_create_transfer(self@, *input);
        }
        self.settle(TransferSaga::begin_create(input))
    }

    /// Changes a recorded transfer and moves the change of its amount (new
    /// minus old) from the sender's balance to the receiver's.
    ///
    /// The request goes through exactly where `amendment_owed` holds. Then the
    /// record reads as the request asks and the two totals have moved by the
    /// change. Otherwise the error is `amendment_error`, and where no
    /// compensating call failed (`amendment_settles`), balances and ledger
    /// hold what they held before the call.
    pub fn update_transfer(&mut self, input: &UpdateTransferRequest) -> (result: Result<
        TransferRecord,
        AppError,
    >)
        requires
            old(self).wf(),
        ensures
            final(self).wf(),
            (final(self)@, result) == old(self)@.run(TransferSaga::update(*input)),
            final(self)@.users == old(self)@.users,
            result is Ok <==> amendment_owed(old(self)@, *input),
            result is Ok ==> {
                &&& result == Ok::<TransferRecord, AppError>(input.revised())
                &&& final(self)@.transfers.rows() == old(self)@.transfers.rows().update(
                    index_of(old(self)@.transfers.rows(), input.transfer_id),
                    input.revised(),
                )
                &&& moved(
                    old(self)@.balances.rows,
                    final(self)@.balances.rows,
                    input.transfer_from,
                    input.transfer_to,
                    input.transfer_amount - lookup(
                        old(self)@.transfers.rows(),
                        input.transfer_id,
                    )->Some_0.transfer_amount,
                )
            },
            result is Err ==> result == Err::<TransferRecord, AppError>(
                amendment_error(old(self)@, *input),
            ),
            result is Err && amendment_settles(old(self)@, *input) ==> final(self)@.same_rows(
                old(self)@,
            ),
    {
        proof {
            lemma_update_transfer(self@, *input);
        }
        self.settle(TransferSaga::begin_update(input))
    }

    /// Deletes a transfer from the ledger. The balances stay as the transfer
    /// left them.
    ///
    /// It succeeds exactly where the ledger answers two calls and holds the
    /// transfer, and then only that record is gone. Otherwise the error is
    /// `deletion_error` and the ledger holds what it held.
    pub fn delete_transfer(&mut self, id: i32) -> (result: Result<(), AppError>)
        requires
            old(self).wf(),
        ensures
            final(self).wf(),
            final(self)@ == old(self)@.run(TransferSaga::delete(id)).0,
            final(self)@.users == old(self)@.users,
            final(self)@.balances == old(self)@.balances,
            result is Ok <==> !fails_at(old(self)@.transfers.faults(), 0) && !fails_at(
                old(self)@.transfers.faults(),
                1,
            ) && lookup(old(self)@.transfers.rows(), id) is Some,
            result is Ok ==> final(self)@.transfers.rows() == old(self)@.transfers.rows().remove(
                index_of(old(self)@.transfers.rows(), id),
            ),
            result is Err ==> result == Err::<(), AppError>(deletion_error(old(self)@, id))
                && final(self)@.transfers.rows() == old(self)@.transfers.rows(),
    {
        proof {
            lemma_delete_transfer(self@, id);
        }
        match self.settle(TransferSaga::begin_delete(id)) {
            Ok(_) => Ok(()),
            Err(error) => Err(error),
        }
    }
}

} // verus!
