use example_payment_gateway::directory::UserDirectory;
use example_payment_gateway::domain::{
    Balance, CreateWithdrawRequest, UpdateWithdrawRequest, WithdrawRecord,
};
use example_payment_gateway::errors::{AppError, Invalid, Missing, Stage};
use example_payment_gateway::services::withdraw::WithdrawService;
use example_payment_gateway::store::{Ledger, Table};

const EVE: i32 = 21;
const DAN: i32 = 22;

/// Eve and Dan exist; Eve has the given balance, Dan has none.
fn withdraw_service(eve: i32, ledger_faults: Vec<bool>, balance_faults: Vec<bool>) -> WithdrawService {
    let mut users = UserDirectory::new();
    users.register(EVE);
    users.register(DAN);
    let mut balances: Table<Balance> = Table::new();
    balances
        .insert(Balance {
            user_id: EVE,
            total_balance: eve,
            withdraw_amount: None,
            withdraw_time: None,
        })
        .unwrap();
    balances.set_faults(balance_faults);
    let mut ledger: Ledger<WithdrawRecord> = Ledger::new();
    ledger.set_faults(ledger_faults);
    WithdrawService::new(ledger, balances, users)
}

fn withdraw_with_faults(
    service: WithdrawService,
    ledger_faults: Vec<bool>,
    balance_faults: Vec<bool>,
) -> WithdrawService {
    let (mut ledger, mut balances, users) = service.into_repositories();
    ledger.set_faults(ledger_faults);
    balances.set_faults(balance_faults);
    WithdrawService::new(ledger, balances, users)
}

fn take(user_id: i32, amount: i32) -> CreateWithdrawRequest {
    CreateWithdrawRequest { user_id, withdraw_amount: amount, withdraw_time: 1_800_000_000 }
}

fn retake(withdraw_id: i32, user_id: i32, amount: i32) -> UpdateWithdrawRequest {
    UpdateWithdrawRequest {
        withdraw_id,
        user_id,
        withdraw_amount: amount,
        withdraw_time: 1_800_000_500,
    }
}

#[test]
fn withdrawal_lowers_the_balance_and_is_noted() {
    let mut service = withdraw_service(1000, vec![], vec![]);
    let record = service.create_withdraw(&take(EVE, 400)).unwrap();
    assert_eq!(
        record,
        WithdrawRecord {
            withdraw_id: 1,
            user_id: EVE,
            withdraw_amount: 400,
            withdraw_time: 1_800_000_000
        }
    );
    assert_eq!(service.withdrawal(1), Some(record));
    assert_eq!(
        service.balance_of(EVE),
        Some(Balance {
            user_id: EVE,
            total_balance: 600,
            withdraw_amount: Some(400),
            withdraw_time: Some(1_800_000_000),
        })
    );
}

#[test]
fn withdrawal_of_the_whole_balance_goes_through() {
    let mut service = withdraw_service(1000, vec![], vec![]);
    service.create_withdraw(&take(EVE, 1000)).unwrap();
    assert_eq!(service.balance_of(EVE).unwrap().total_balance, 0);
}

#[test]
fn uncovered_withdrawal_is_insufficient_funds() {
    let mut service = withdraw_service(1000, vec![], vec![]);
    assert_eq!(
        service.create_withdraw(&take(EVE, 1001)),
        Err(AppError::InsufficientFunds { user_id: EVE, balance: 1000, amount: 1001 })
    );
    assert_eq!(
        service.balance_of(EVE),
        Some(Balance {
            user_id: EVE,
            total_balance: 1000,
            withdraw_amount: None,
            withdraw_time: None
        })
    );
    assert_eq!(service.withdrawal(1), None);
    assert_eq!(service.get_withdraws(), Ok(vec![]));
}

#[test]
fn withdrawal_from_a_negative_balance_is_insufficient_funds() {
    let mut service = withdraw_service(-5, vec![], vec![]);
    assert_eq!(
        service.create_withdraw(&take(EVE, 1)),
        Err(AppError::InsufficientFunds { user_id: EVE, balance: -5, amount: 1 })
    );
}

#[test]
fn withdrawal_without_a_balance_is_not_found_and_undone() {
    let mut service = withdraw_service(1000, vec![], vec![]);
    assert_eq!(
        service.create_withdraw(&take(DAN, 1)),
        Err(AppError::NotFound(Missing::Balance(DAN)))
    );
    assert_eq!(service.get_withdraws(), Ok(vec![]));
    assert_eq!(
        service.create_withdraw(&take(77, 1)),
        Err(AppError::NotFound(Missing::User(77)))
    );
}

#[test]
fn withdrawal_is_validated_first() {
    let mut service = withdraw_service(1000, vec![true], vec![true]);
    assert_eq!(
        service.create_withdraw(&take(EVE, 0)),
        Err(AppError::ValidationError(Invalid::AmountNotPositive))
    );
    assert_eq!(
        service.update_withdraw(&retake(1, EVE, -3)),
        Err(AppError::ValidationError(Invalid::AmountNotPositive))
    );
    assert_eq!(service.get_withdraws(), Err(AppError::StorageError(Stage::LedgerRead)));
}

#[test]
fn withdrawal_with_failed_balance_write_is_deleted_again() {
    let mut service = withdraw_service(1000, vec![], vec![false, true]);
    assert_eq!(
        service.create_withdraw(&take(EVE, 400)),
        Err(AppError::StorageError(Stage::BalanceWrite))
    );
    assert_eq!(service.withdrawal(1), None);
    assert_eq!(service.balance_of(EVE).unwrap().total_balance, 1000);
    assert_eq!(service.balance_of(EVE).unwrap().withdraw_amount, None);
}

#[test]
fn withdrawal_with_failed_storage_reports_the_step() {
    let mut service = withdraw_service(1000, vec![true], vec![]);
    assert_eq!(
        service.create_withdraw(&take(EVE, 400)),
        Err(AppError::StorageError(Stage::LedgerWrite))
    );
    let mut service = withdraw_with_faults(service, vec![], vec![true]);
    assert_eq!(
        service.create_withdraw(&take(EVE, 400)),
        Err(AppError::StorageError(Stage::BalanceRead))
    );
    assert_eq!(service.get_withdraws(), Ok(vec![]));
    assert_eq!(service.balance_of(EVE).unwrap().total_balance, 1000);
}

#[test]
fn amended_withdrawal_takes_the_difference() {
    let mut service = withdraw_service(1000, vec![], vec![]);
    service.create_withdraw(&take(EVE, 400)).unwrap();
    let revised = service.update_withdraw(&retake(1, EVE, 450)).unwrap();
    assert_eq!(revised.withdraw_amount, 450);
    assert_eq!(
        service.balance_of(EVE),
        Some(Balance {
            user_id: EVE,
            total_balance: 550,
            withdraw_amount: Some(450),
            withdraw_time: Some(1_800_000_500),
        })
    );
    service.update_withdraw(&retake(1, EVE, 50)).unwrap();
    assert_eq!(service.balance_of(EVE).unwrap().total_balance, 950);
}

#[test]
fn amended_withdrawal_has_to_be_covered() {
    let mut service = withdraw_service(1000, vec![], vec![]);
    let created = service.create_withdraw(&take(EVE, 400)).unwrap();
    assert_eq!(
        service.update_withdraw(&retake(1, EVE, 1001)),
        Err(AppError::InsufficientFunds { user_id: EVE, balance: 600, amount: 1001 })
    );
    assert_eq!(service.withdrawal(1), Some(created));
    assert_eq!(service.balance_of(EVE).unwrap().total_balance, 600);
    assert_eq!(
        service.update_withdraw(&retake(3, EVE, 10)),
        Err(AppError::NotFound(Missing::Withdraw(3)))
    );
}

#[test]
fn refund_beyond_the_largest_total_is_refused() {
    let mut service = withdraw_service(i32::MAX, vec![], vec![]);
    let created = service.create_withdraw(&take(EVE, 10)).unwrap();
    let (ledger, mut balances, users) = service.into_repositories();
    balances
        .replace(Balance {
            user_id: EVE,
            total_balance: i32::MAX,
            withdraw_amount: None,
            withdraw_time: None,
        })
        .unwrap();
    let mut service = WithdrawService::new(ledger, balances, users);
    assert_eq!(
        service.update_withdraw(&retake(1, EVE, 9)),
        Err(AppError::StorageError(Stage::BalanceLimit))
    );
    assert_eq!(service.withdrawal(1), Some(created));
    assert_eq!(service.balance_of(EVE).unwrap().total_balance, i32::MAX);
}

#[test]
fn deleting_a_withdrawal_keeps_the_balance() {
    let mut service = withdraw_service(1000, vec![], vec![]);
    service.create_withdraw(&take(EVE, 400)).unwrap();
    assert_eq!(service.delete_withdraw(1), Ok(()));
    assert_eq!(service.withdrawal(1), None);
    assert_eq!(service.balance_of(EVE).unwrap().total_balance, 600);
    assert_eq!(service.delete_withdraw(1), Err(AppError::NotFound(Missing::Withdraw(1))));
    let mut service = withdraw_with_faults(service, vec![true], vec![]);
    assert_eq!(service.delete_withdraw(1), Err(AppError::StorageError(Stage::LedgerRead)));
}

#[test]
fn reading_withdrawals() {
    let mut service = withdraw_service(1000, vec![], vec![]);
    let first = service.create_withdraw(&take(EVE, 1)).unwrap();
    let second = service.create_withdraw(&take(EVE, 2)).unwrap();
    assert_eq!(service.get_withdraw(2), Ok(second));
    assert_eq!(service.get_withdraw(9), Err(AppError::NotFound(Missing::Withdraw(9))));
    assert_eq!(service.get_withdraws(), Ok(vec![first, second]));
    assert_eq!(service.get_withdraw_users(EVE), Ok(Some(vec![first, second])));
    assert_eq!(service.get_withdraw_users(DAN), Ok(None));
    assert_eq!(service.get_withdraw_user(EVE), Ok(Some(first)));
    assert_eq!(service.get_withdraw_user(77), Err(AppError::NotFound(Missing::User(77))));
}
