use example_payment_gateway::domain::{
    Balance, CreateTopupRequest, CreateTransferRequest, CreateWithdrawRequest, TopupRecord,
    TransferRecord, UpdateTransferRequest, WithdrawRecord,
};
use example_payment_gateway::errors::{AppError, Invalid, Missing, Stage};
use example_payment_gateway::saga::topup::{TopupCommand, TopupReply, TopupSaga, TopupStep};
use example_payment_gateway::saga::transfer::{
    TransferCommand, TransferReply, TransferSaga, TransferStep,
};
use example_payment_gateway::saga::withdraw::{
    WithdrawCommand, WithdrawReply, WithdrawSaga, WithdrawStep,
};

fn row(user_id: i32, total_balance: i32) -> Balance {
    Balance { user_id, total_balance, withdraw_amount: None, withdraw_time: None }
}

fn asks(saga: &TransferSaga, command: TransferCommand) {
    assert_eq!(saga.pending(), TransferStep::Perform(command));
}

#[test]
fn transfer_machine_asks_for_each_call_in_order() {
    let request = CreateTransferRequest { transfer_from: 1, transfer_to: 2, transfer_amount: 300 };
    let recorded =
        TransferRecord { transfer_id: 7, transfer_from: 1, transfer_to: 2, transfer_amount: 300 };
    let saga = TransferSaga::begin_create(&request);
    asks(&saga, TransferCommand::FindUser(1));
    let saga = saga.advance(TransferReply::User(true));
    asks(&saga, TransferCommand::FindUser(2));
    let saga = saga.advance(TransferReply::User(true));
    asks(
        &saga,
        TransferCommand::CreateTransfer(TransferRecord {
            transfer_id: 0,
            transfer_from: 1,
            transfer_to: 2,
            transfer_amount: 300,
        }),
    );
    let saga = saga.advance(TransferReply::Transfer(Some(recorded)));
    asks(&saga, TransferCommand::FindBalance(1));
    let saga = saga.advance(TransferReply::Balance(Some(row(1, 1000))));
    asks(&saga, TransferCommand::UpdateBalance(row(1, 700)));
    let saga = saga.advance(TransferReply::Done);
    asks(&saga, TransferCommand::FindBalance(2));
    let saga = saga.advance(TransferReply::Balance(Some(row(2, 500))));
    asks(&saga, TransferCommand::UpdateBalance(row(2, 800)));
    let saga = saga.advance(TransferReply::Done);
    assert_eq!(saga.pending(), TransferStep::Finish(Ok(recorded)));
    // A finished machine stays finished.
    let saga = saga.advance(TransferReply::Failed);
    assert_eq!(saga.pending(), TransferStep::Finish(Ok(recorded)));
}

#[test]
fn transfer_machine_compensates_newest_first() {
    let request = CreateTransferRequest { transfer_from: 1, transfer_to: 2, transfer_amount: 300 };
    let recorded =
        TransferRecord { transfer_id: 7, transfer_from: 1, transfer_to: 2, transfer_amount: 300 };
    let saga = TransferSaga::begin_create(&request)
        .advance(TransferReply::User(true))
        .advance(TransferReply::User(true))
        .advance(TransferReply::Transfer(Some(recorded)))
        .advance(TransferReply::Balance(Some(row(1, 1000))))
        .advance(TransferReply::Done)
        .advance(TransferReply::Balance(Some(row(2, 500))))
        .advance(TransferReply::Failed);
    asks(&saga, TransferCommand::UpdateBalance(row(1, 1000)));
    // The compensations go on whatever they are answered.
    let saga = saga.advance(TransferReply::Failed);
    asks(&saga, TransferCommand::DeleteTransfer(7));
    let saga = saga.advance(TransferReply::Failed);
    assert_eq!(
        saga.pending(),
        TransferStep::Finish(Err(AppError::StorageError(Stage::BalanceWrite)))
    );
}

#[test]
fn transfer_machine_takes_an_unexpected_reply_for_a_failure() {
    let request = CreateTransferRequest { transfer_from: 1, transfer_to: 2, transfer_amount: 300 };
    let saga = TransferSaga::begin_create(&request).advance(TransferReply::Done);
    assert_eq!(
        saga.pending(),
        TransferStep::Finish(Err(AppError::NotFound(Missing::User(1))))
    );
    let saga = TransferSaga::begin_create(&request)
        .advance(TransferReply::User(true))
        .advance(TransferReply::User(true))
        .advance(TransferReply::Transfer(None));
    assert_eq!(
        saga.pending(),
        TransferStep::Finish(Err(AppError::StorageError(Stage::LedgerWrite)))
    );
}

#[test]
fn amending_machine_restores_the_earlier_record() {
    let request = UpdateTransferRequest {
        transfer_id: 7,
        transfer_from: 1,
        transfer_to: 2,
        transfer_amount: 500,
    };
    let earlier =
        TransferRecord { transfer_id: 7, transfer_from: 1, transfer_to: 2, transfer_amount: 300 };
    let revised =
        TransferRecord { transfer_id: 7, transfer_from: 1, transfer_to: 2, transfer_amount: 500 };
    let saga = TransferSaga::begin_update(&request)
        .advance(TransferReply::User(true))
        .advance(TransferReply::User(true));
    asks(&saga, TransferCommand::FindTransfer(7));
    let saga = saga.advance(TransferReply::Transfer(Some(earlier)));
    asks(&saga, TransferCommand::UpdateTransfer(revised));
    let saga = saga.advance(TransferReply::Transfer(Some(revised)));
    asks(&saga, TransferCommand::FindBalance(1));
    let saga = saga.advance(TransferReply::Balance(Some(row(1, 700))));
    asks(&saga, TransferCommand::UpdateBalance(row(1, 500)));
    let saga = saga.advance(TransferReply::Failed);
    asks(&saga, TransferCommand::UpdateTransfer(earlier));
    let saga = saga.advance(TransferReply::Transfer(Some(earlier)));
    assert_eq!(
        saga.pending(),
        TransferStep::Finish(Err(AppError::StorageError(Stage::BalanceWrite)))
    );
}

#[test]
fn deleting_machine_asks_only_for_the_ledger() {
    let record =
        TransferRecord { transfer_id: 7, transfer_from: 1, transfer_to: 2, transfer_amount: 300 };
    let saga = TransferSaga::begin_delete(7);
    asks(&saga, TransferCommand::FindTransfer(7));
    let saga = saga.advance(TransferReply::Transfer(Some(record)));
    asks(&saga, TransferCommand::DeleteTransfer(7));
    let saga = saga.advance(TransferReply::Done);
    assert_eq!(saga.pending(), TransferStep::Finish(Ok(record)));
}

#[test]
fn invalid_requests_finish_at_once() {
    let same = CreateTransferRequest { transfer_from: 1, transfer_to: 1, transfer_amount: 300 };
    assert_eq!(
        TransferSaga::begin_create(&same).pending(),
        TransferStep::Finish(Err(AppError::ValidationError(Invalid::SameAccount)))
    );
    let nothing = CreateWithdrawRequest { user_id: 1, withdraw_amount: 0, withdraw_time: 0 };
    assert_eq!(
        WithdrawSaga::begin_create(&nothing).pending(),
        WithdrawStep::Finish(Err(AppError::ValidationError(Invalid::AmountNotPositive)))
    );
    let negative = CreateTopupRequest {
        user_id: 1,
        topup_no: String::from("T-1"),
        topup_amount: -1,
        topup_method: String::new(),
        topup_time: 0,
    };
    assert_eq!(
        TopupSaga::begin_create(&negative).pending(),
        TopupStep::Finish(Err(AppError::ValidationError(Invalid::AmountNotPositive)))
    );
}

#[test]
fn topup_machine_opens_a_balance_for_a_new_user() {
    let request = CreateTopupRequest {
        user_id: 5,
        topup_no: String::from("T-1"),
        topup_amount: 200,
        topup_method: String::from("bank"),
        topup_time: 99,
    };
    let recorded = TopupRecord {
        topup_id: 3,
        user_id: 5,
        topup_no: String::from("T-1"),
        topup_amount: 200,
        topup_method: String::from("bank"),
        topup_time: 99,
    };
    let saga = TopupSaga::begin_create(&request);
    assert_eq!(saga.pending(), TopupStep::Perform(TopupCommand::FindUser(5)));
    let saga = saga.advance(TopupReply::User(true));
    assert_eq!(
        saga.pending(),
        TopupStep::Perform(TopupCommand::CreateTopup(TopupRecord {
            topup_id: 0,
            user_id: 5,
            topup_no: String::from("T-1"),
            topup_amount: 200,
            topup_method: String::from("bank"),
            topup_time: 99,
        }))
    );
    let saga = saga.advance(TopupReply::Topup(Some(recorded.clone())));
    assert_eq!(saga.pending(), TopupStep::Perform(TopupCommand::FindBalance(5)));
    let saga = saga.advance(TopupReply::Balance(None));
    assert_eq!(saga.pending(), TopupStep::Perform(TopupCommand::CreateBalance(row(5, 200))));
    let saga = saga.advance(TopupReply::Failed);
    assert_eq!(saga.pending(), TopupStep::Perform(TopupCommand::DeleteTopup(3)));
    let saga = saga.advance(TopupReply::Done);
    assert_eq!(
        saga.pending(),
        TopupStep::Finish(Err(AppError::StorageError(Stage::BalanceWrite)))
    );
}

#[test]
fn topup_machine_raises_an_existing_balance() {
    let request = CreateTopupRequest {
        user_id: 5,
        topup_no: String::from("T-1"),
        topup_amount: 200,
        topup_method: String::from("bank"),
        topup_time: 99,
    };
    let recorded = TopupRecord {
        topup_id: 3,
        user_id: 5,
        topup_no: String::from("T-1"),
        topup_amount: 200,
        topup_method: String::from("bank"),
        topup_time: 99,
    };
    let saga = TopupSaga::begin_create(&request)
        .advance(TopupReply::User(true))
        .advance(TopupReply::Topup(Some(recorded.clone())))
        .advance(TopupReply::Balance(Some(row(5, 1000))));
    assert_eq!(saga.pending(), TopupStep::Perform(TopupCommand::UpdateBalance(row(5, 1200))));
    let saga = saga.advance(TopupReply::Done);
    assert_eq!(saga.pending(), TopupStep::Finish(Ok(recorded)));
}

#[test]
fn withdraw_machine_checks_the_cover_before_it_writes() {
    let request = CreateWithdrawRequest { user_id: 5, withdraw_amount: 400, withdraw_time: 77 };
    let recorded =
        WithdrawRecord { withdraw_id: 2, user_id: 5, withdraw_amount: 400, withdraw_time: 77 };
    let read = WithdrawSaga::begin_create(&request)
        .advance(WithdrawReply::User(true))
        .advance(WithdrawReply::Withdraw(Some(recorded)));
    assert_eq!(read.pending(), WithdrawStep::Perform(WithdrawCommand::FindBalance(5)));

    let covered = read.advance(WithdrawReply::Balance(Some(row(5, 400))));
    assert_eq!(
        covered.pending(),
        WithdrawStep::Perform(WithdrawCommand::UpdateBalance(Balance {
            user_id: 5,
            total_balance: 0,
            withdraw_amount: Some(400),
            withdraw_time: Some(77),
        }))
    );
    assert_eq!(
        covered.advance(WithdrawReply::Done).pending(),
        WithdrawStep::Finish(Ok(recorded))
    );

    let short = read.advance(WithdrawReply::Balance(Some(row(5, 399))));
    assert_eq!(short.pending(), WithdrawStep::Perform(WithdrawCommand::DeleteWithdraw(2)));
    assert_eq!(
        short.advance(WithdrawReply::Done).pending(),
        WithdrawStep::Finish(Err(AppError::InsufficientFunds {
            user_id: 5,
            balance: 399,
            amount: 400
        }))
    );
}
