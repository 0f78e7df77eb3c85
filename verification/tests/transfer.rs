use example_payment_gateway::directory::UserDirectory;
use example_payment_gateway::domain::{
    Balance, CreateTransferRequest, TransferRecord, UpdateTransferRequest,
};
use example_payment_gateway::errors::{AppError, Invalid, Missing, Stage};
use example_payment_gateway::services::transfer::TransferService;
use example_payment_gateway::store::{Ledger, Table};

const A: i32 = 1;
const B: i32 = 2;
const C: i32 = 3;

fn balance(user_id: i32, total_balance: i32) -> Balance {
    Balance { user_id, total_balance, withdraw_amount: None, withdraw_time: None }
}

/// Users A, B and C exist; A and B have a balance, C has none.
fn service(a: i32, b: i32, ledger_faults: Vec<bool>, balance_faults: Vec<bool>) -> TransferService {
    let mut users = UserDirectory::new();
    users.register(A);
    users.register(B);
    users.register(C);
    let mut balances: Table<Balance> = Table::new();
    balances.insert(balance(A, a)).unwrap();
    balances.insert(balance(B, b)).unwrap();
    balances.set_faults(balance_faults);
    let mut ledger: Ledger<TransferRecord> = Ledger::new();
    ledger.set_faults(ledger_faults);
    TransferService::new(ledger, balances, users)
}

fn with_faults(
    service: TransferService,
    ledger_faults: Vec<bool>,
    balance_faults: Vec<bool>,
) -> TransferService {
    let (mut ledger, mut balances, users) = service.into_repositories();
    ledger.set_faults(ledger_faults);
    balances.set_faults(balance_faults);
    TransferService::new(ledger, balances, users)
}

fn total(service: &TransferService, user_id: i32) -> i32 {
    service.balance_of(user_id).unwrap().total_balance
}

fn send(from: i32, to: i32, amount: i32) -> CreateTransferRequest {
    CreateTransferRequest { transfer_from: from, transfer_to: to, transfer_amount: amount }
}

fn amend(id: i32, from: i32, to: i32, amount: i32) -> UpdateTransferRequest {
    UpdateTransferRequest {
        transfer_id: id,
        transfer_from: from,
        transfer_to: to,
        transfer_amount: amount,
    }
}

#[test]
fn transfer_then_amend_moves_the_difference() {
    let mut service = service(1000, 500, vec![], vec![]);
    let created = service.create_transfer(&send(A, B, 300)).unwrap();
    assert_eq!(
        created,
        TransferRecord { transfer_id: 1, transfer_from: A, transfer_to: B, transfer_amount: 300 }
    );
    assert_eq!(total(&service, A), 700);
    assert_eq!(total(&service, B), 800);
    assert_eq!(service.transfer(1), Some(created));

    let amended = service.update_transfer(&amend(1, A, B, 500)).unwrap();
    assert_eq!(
        amended,
        TransferRecord { transfer_id: 1, transfer_from: A, transfer_to: B, transfer_amount: 500 }
    );
    assert_eq!(total(&service, A), 500);
    assert_eq!(total(&service, B), 1000);
    assert_eq!(service.transfer(1), Some(amended));
}

#[test]
fn transfer_conserves_the_sum_of_both_totals() {
    let mut service = service(40, 2, vec![], vec![]);
    service.create_transfer(&send(A, B, 40)).unwrap();
    assert_eq!(total(&service, A), 0);
    assert_eq!(total(&service, B), 42);
    assert_eq!(total(&service, A) + total(&service, B), 42);
}

#[test]
fn transfers_get_consecutive_keys() {
    let mut service = service(100, 100, vec![], vec![]);
    assert_eq!(service.create_transfer(&send(A, B, 1)).unwrap().transfer_id, 1);
    assert_eq!(service.create_transfer(&send(B, A, 2)).unwrap().transfer_id, 2);
    service.delete_transfer(2).unwrap();
    assert_eq!(service.create_transfer(&send(A, B, 3)).unwrap().transfer_id, 3);
    let ids: Vec<i32> = service.get_transfers().unwrap().iter().map(|t| t.transfer_id).collect();
    assert_eq!(ids, vec![1, 3]);
}

#[test]
fn failed_debit_leaves_sender_and_ledger_as_they_were() {
    let mut service = service(1000, 500, vec![], vec![false, true]);
    let result = service.create_transfer(&send(A, B, 300));
    assert_eq!(result, Err(AppError::StorageError(Stage::BalanceWrite)));
    assert_eq!(service.balance_of(A), Some(balance(A, 1000)));
    assert_eq!(service.balance_of(B), Some(balance(B, 500)));
    assert_eq!(service.transfer(1), None);
    assert_eq!(service.get_transfers().unwrap(), vec![]);
}

#[test]
fn failed_read_of_the_sender_deletes_the_record() {
    let mut service = service(1000, 500, vec![], vec![true]);
    let result = service.create_transfer(&send(A, B, 300));
    assert_eq!(result, Err(AppError::StorageError(Stage::BalanceRead)));
    assert_eq!(total(&service, A), 1000);
    assert_eq!(service.transfer(1), None);
}

#[test]
fn failed_read_of_the_receiver_restores_the_sender() {
    let mut service = service(1000, 500, vec![], vec![false, false, true]);
    let result = service.create_transfer(&send(A, B, 300));
    assert_eq!(result, Err(AppError::StorageError(Stage::BalanceRead)));
    assert_eq!(total(&service, A), 1000);
    assert_eq!(total(&service, B), 500);
    assert_eq!(service.transfer(1), None);
}

#[test]
fn failed_credit_restores_the_sender() {
    let mut service = service(1000, 500, vec![], vec![false, false, false, true]);
    let result = service.create_transfer(&send(A, B, 300));
    assert_eq!(result, Err(AppError::StorageError(Stage::BalanceWrite)));
    assert_eq!(total(&service, A), 1000);
    assert_eq!(total(&service, B), 500);
    assert_eq!(service.transfer(1), None);
}

#[test]
fn failed_ledger_write_changes_nothing() {
    let mut service = service(1000, 500, vec![true], vec![]);
    let result = service.create_transfer(&send(A, B, 300));
    assert_eq!(result, Err(AppError::StorageError(Stage::LedgerWrite)));
    assert_eq!(total(&service, A), 1000);
    assert_eq!(total(&service, B), 500);
    assert_eq!(service.get_transfers().unwrap(), vec![]);
}

#[test]
fn failed_compensation_reports_the_first_failure() {
    // The debit fails and so does the deletion of the record: the record stays,
    // and the caller still sees the failure of the debit.
    let mut service = service(1000, 500, vec![false, true], vec![false, true]);
    let result = service.create_transfer(&send(A, B, 300));
    assert_eq!(result, Err(AppError::StorageError(Stage::BalanceWrite)));
    assert_eq!(total(&service, A), 1000);
    assert_eq!(
        service.transfer(1),
        Some(TransferRecord {
            transfer_id: 1,
            transfer_from: A,
            transfer_to: B,
            transfer_amount: 300
        })
    );
}

#[test]
fn failed_restore_of_the_sender_leaves_the_debit() {
    // The credit fails, and so does writing the sender's balance back.
    let mut service = service(1000, 500, vec![], vec![false, false, false, true, true]);
    let result = service.create_transfer(&send(A, B, 300));
    assert_eq!(result, Err(AppError::StorageError(Stage::BalanceWrite)));
    assert_eq!(total(&service, A), 700);
    assert_eq!(total(&service, B), 500);
    assert_eq!(service.transfer(1), None);
}

#[test]
fn transfer_to_self_is_rejected_without_side_effects() {
    let mut service = service(1000, 500, vec![true], vec![true]);
    let result = service.create_transfer(&send(A, A, 300));
    assert_eq!(result, Err(AppError::ValidationError(Invalid::SameAccount)));
    assert_eq!(total(&service, A), 1000);
    // Nothing was asked of the stores: the scheduled failure is still to come.
    assert_eq!(service.get_transfers(), Err(AppError::StorageError(Stage::LedgerRead)));
}

#[test]
fn amount_that_is_not_positive_is_rejected() {
    let mut service = service(1000, 500, vec![], vec![]);
    assert_eq!(
        service.create_transfer(&send(A, B, 0)),
        Err(AppError::ValidationError(Invalid::AmountNotPositive))
    );
    assert_eq!(
        service.create_transfer(&send(A, A, -5)),
        Err(AppError::ValidationError(Invalid::AmountNotPositive))
    );
    assert_eq!(
        service.update_transfer(&amend(1, A, B, -1)),
        Err(AppError::ValidationError(Invalid::AmountNotPositive))
    );
    assert_eq!(
        service.update_transfer(&amend(1, B, B, 1)),
        Err(AppError::ValidationError(Invalid::SameAccount))
    );
    assert_eq!(service.get_transfers().unwrap(), vec![]);
}

#[test]
fn uncovered_transfer_is_insufficient_funds() {
    let mut service = service(100, 500, vec![], vec![]);
    let result = service.create_transfer(&send(A, B, 101));
    assert_eq!(
        result,
        Err(AppError::InsufficientFunds { user_id: A, balance: 100, amount: 101 })
    );
    assert_eq!(total(&service, A), 100);
    assert_eq!(total(&service, B), 500);
    assert_eq!(service.get_transfers().unwrap(), vec![]);
}

#[test]
fn transfer_of_the_whole_balance_goes_through() {
    let mut service = service(100, 500, vec![], vec![]);
    service.create_transfer(&send(A, B, 100)).unwrap();
    assert_eq!(total(&service, A), 0);
    assert_eq!(total(&service, B), 600);
}

#[test]
fn unknown_party_is_not_found() {
    let mut service = service(100, 500, vec![], vec![]);
    assert_eq!(
        service.create_transfer(&send(A, 9, 10)),
        Err(AppError::NotFound(Missing::User(9)))
    );
    assert_eq!(
        service.create_transfer(&send(8, B, 10)),
        Err(AppError::NotFound(Missing::User(8)))
    );
    assert_eq!(service.get_transfers().unwrap(), vec![]);
}

#[test]
fn party_without_balance_is_not_found_and_undone() {
    let mut service = service(100, 500, vec![], vec![]);
    assert_eq!(
        service.create_transfer(&send(A, C, 10)),
        Err(AppError::NotFound(Missing::Balance(C)))
    );
    assert_eq!(total(&service, A), 100);
    assert_eq!(
        service.create_transfer(&send(C, A, 10)),
        Err(AppError::NotFound(Missing::Balance(C)))
    );
    assert_eq!(service.balance_of(C), None);
    assert_eq!(service.get_transfers().unwrap(), vec![]);
}

#[test]
fn credit_beyond_the_largest_total_is_refused_and_undone() {
    let mut service = service(100, i32::MAX - 5, vec![], vec![]);
    assert_eq!(
        service.create_transfer(&send(A, B, 6)),
        Err(AppError::StorageError(Stage::BalanceLimit))
    );
    assert_eq!(total(&service, A), 100);
    assert_eq!(total(&service, B), i32::MAX - 5);
    assert_eq!(service.get_transfers().unwrap(), vec![]);
    service.create_transfer(&send(A, B, 5)).unwrap();
    assert_eq!(total(&service, B), i32::MAX);
}

#[test]
fn amending_to_a_lower_amount_pays_back() {
    let mut service = service(1000, 500, vec![], vec![]);
    service.create_transfer(&send(A, B, 300)).unwrap();
    service.update_transfer(&amend(1, A, B, 100)).unwrap();
    assert_eq!(total(&service, A), 900);
    assert_eq!(total(&service, B), 600);
}

#[test]
fn amending_does_not_ask_for_cover() {
    let mut service = service(300, 0, vec![], vec![]);
    service.create_transfer(&send(A, B, 300)).unwrap();
    service.update_transfer(&amend(1, A, B, 350)).unwrap();
    assert_eq!(total(&service, A), -50);
    assert_eq!(total(&service, B), 350);
}

#[test]
fn amending_an_unknown_transfer_is_not_found() {
    let mut service = service(1000, 500, vec![], vec![]);
    assert_eq!(
        service.update_transfer(&amend(4, A, B, 100)),
        Err(AppError::NotFound(Missing::Transfer(4)))
    );
    let mut service = with_faults(service, vec![true], vec![]);
    assert_eq!(
        service.update_transfer(&amend(4, A, B, 100)),
        Err(AppError::StorageError(Stage::LedgerRead))
    );
}

#[test]
fn failed_amendment_restores_record_and_sender() {
    let mut service = service(1000, 500, vec![], vec![]);
    let created = service.create_transfer(&send(A, B, 300)).unwrap();

    let mut service = with_faults(service, vec![], vec![false, true]);
    assert_eq!(
        service.update_transfer(&amend(1, A, B, 500)),
        Err(AppError::StorageError(Stage::BalanceWrite))
    );
    assert_eq!(service.transfer(1), Some(created));
    assert_eq!(total(&service, A), 700);
    assert_eq!(total(&service, B), 800);

    let mut service = with_faults(service, vec![], vec![false, false, false, true]);
    assert_eq!(
        service.update_transfer(&amend(1, A, B, 500)),
        Err(AppError::StorageError(Stage::BalanceWrite))
    );
    assert_eq!(service.transfer(1), Some(created));
    assert_eq!(total(&service, A), 700);
    assert_eq!(total(&service, B), 800);

    let mut service = with_faults(service, vec![false, true], vec![]);
    assert_eq!(
        service.update_transfer(&amend(1, A, B, 500)),
        Err(AppError::StorageError(Stage::LedgerWrite))
    );
    assert_eq!(service.transfer(1), Some(created));
    assert_eq!(total(&service, A), 700);
}

#[test]
fn deleting_a_transfer_keeps_the_balances() {
    let mut service = service(1000, 500, vec![], vec![]);
    service.create_transfer(&send(A, B, 300)).unwrap();
    assert_eq!(service.delete_transfer(1), Ok(()));
    assert_eq!(service.transfer(1), None);
    assert_eq!(total(&service, A), 700);
    assert_eq!(total(&service, B), 800);
    assert_eq!(service.delete_transfer(1), Err(AppError::NotFound(Missing::Transfer(1))));
}

#[test]
fn failed_deletion_keeps_the_record() {
    let mut service = service(1000, 500, vec![], vec![]);
    let created = service.create_transfer(&send(A, B, 300)).unwrap();
    let mut service = with_faults(service, vec![true], vec![]);
    assert_eq!(service.delete_transfer(1), Err(AppError::StorageError(Stage::LedgerRead)));
    let mut service = with_faults(service, vec![false, true], vec![]);
    assert_eq!(service.delete_transfer(1), Err(AppError::StorageError(Stage::LedgerWrite)));
    assert_eq!(service.transfer(1), Some(created));
}

#[test]
fn reading_transfers() {
    let mut service = service(1000, 500, vec![], vec![]);
    let first = service.create_transfer(&send(A, B, 300)).unwrap();
    let second = service.create_transfer(&send(B, A, 50)).unwrap();
    assert_eq!(service.get_transfer(2), Ok(second));
    assert_eq!(service.get_transfer(3), Err(AppError::NotFound(Missing::Transfer(3))));
    assert_eq!(service.get_transfers(), Ok(vec![first, second]));
    assert_eq!(service.get_transfer_users(A), Ok(Some(vec![first, second])));
    assert_eq!(service.get_transfer_users(C), Ok(None));
    assert_eq!(service.get_transfer_users(9), Err(AppError::NotFound(Missing::User(9))));
    assert_eq!(service.get_transfer_user(B), Ok(Some(first)));
    assert_eq!(service.get_transfer_user(C), Ok(None));
    assert_eq!(service.get_transfer_user(9), Err(AppError::NotFound(Missing::User(9))));
    let mut service = with_faults(service, vec![true, true, true], vec![]);
    assert_eq!(service.get_transfer(1), Err(AppError::StorageError(Stage::LedgerRead)));
    assert_eq!(service.get_transfer_users(A), Err(AppError::StorageError(Stage::LedgerRead)));
    assert_eq!(service.get_transfer_user(A), Err(AppError::StorageError(Stage::LedgerRead)));
    assert_eq!(service.get_transfer(1), Ok(first));
}
