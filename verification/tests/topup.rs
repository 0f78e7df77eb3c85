use example_payment_gateway::directory::UserDirectory;
use example_payment_gateway::domain::{
    Balance, CreateTopupRequest, TopupRecord, UpdateTopupRequest,
};
use example_payment_gateway::errors::{AppError, Invalid, Missing, Stage};
use example_payment_gateway::services::topup::TopupService;
use example_payment_gateway::store::{Ledger, Table};

const ANN: i32 = 11;
const BOB: i32 = 12;

/// Ann and Bob exist; Ann has the given balance, Bob has none.
fn topup_service(ann: i32, ledger_faults: Vec<bool>, balance_faults: Vec<bool>) -> TopupService {
    let mut users = UserDirectory::new();
    users.register(ANN);
    users.register(BOB);
    let mut balances: Table<Balance> = Table::new();
    balances
        .insert(Balance {
            user_id: ANN,
            total_balance: ann,
            withdraw_amount: Some(7),
            withdraw_time: Some(1_700_000_000),
        })
        .unwrap();
    balances.set_faults(balance_faults);
    let mut ledger: Ledger<TopupRecord> = Ledger::new();
    ledger.set_faults(ledger_faults);
    TopupService::new(ledger, balances, users)
}

fn topup_with_faults(
    service: TopupService,
    ledger_faults: Vec<bool>,
    balance_faults: Vec<bool>,
) -> TopupService {
    let (mut ledger, mut balances, users) = service.into_repositories();
    ledger.set_faults(ledger_faults);
    balances.set_faults(balance_faults);
    TopupService::new(ledger, balances, users)
}

fn fund(user_id: i32, amount: i32) -> CreateTopupRequest {
    CreateTopupRequest {
        user_id,
        topup_no: String::from("T-1"),
        topup_amount: amount,
        topup_method: String::from("bank"),
        topup_time: 1_700_000_100,
    }
}

fn revise(topup_id: i32, user_id: i32, amount: i32) -> UpdateTopupRequest {
    UpdateTopupRequest {
        topup_id,
        user_id,
        topup_no: String::from("T-1"),
        topup_amount: amount,
        topup_method: String::from("card"),
        topup_time: 1_700_000_200,
    }
}

fn topup_total(service: &TopupService, user_id: i32) -> i32 {
    service.balance_of(user_id).unwrap().total_balance
}

#[test]
fn topup_raises_the_balance_by_the_amount() {
    let mut service = topup_service(1000, vec![], vec![]);
    let record = service.create_topup(&fund(ANN, 200)).unwrap();
    assert_eq!(
        record,
        TopupRecord {
            topup_id: 1,
            user_id: ANN,
            topup_no: String::from("T-1"),
            topup_amount: 200,
            topup_method: String::from("bank"),
            topup_time: 1_700_000_100,
        }
    );
    assert_eq!(service.topup(1), Some(record));
    // The total is higher by the amount; what is known of the last withdrawal stays.
    assert_eq!(
        service.balance_of(ANN),
        Some(Balance {
            user_id: ANN,
            total_balance: 1200,
            withdraw_amount: Some(7),
            withdraw_time: Some(1_700_000_000),
        })
    );
}

#[test]
fn first_topup_opens_the_balance() {
    let mut service = topup_service(1000, vec![], vec![]);
    assert_eq!(service.balance_of(BOB), None);
    service.create_topup(&fund(BOB, 200)).unwrap();
    assert_eq!(
        service.balance_of(BOB),
        Some(Balance {
            user_id: BOB,
            total_balance: 200,
            withdraw_amount: None,
            withdraw_time: None
        })
    );
    let (_, balances, _) = service.into_repositories();
    assert_eq!(balances.len(), 2);
}

#[test]
fn second_topup_updates_the_opened_balance() {
    let mut service = topup_service(1000, vec![], vec![]);
    service.create_topup(&fund(BOB, 200)).unwrap();
    service.create_topup(&fund(BOB, 50)).unwrap();
    assert_eq!(topup_total(&service, BOB), 250);
    let (ledger, balances, _) = service.into_repositories();
    assert_eq!(balances.len(), 2);
    assert_eq!(ledger.len(), 2);
}

#[test]
fn topup_with_failed_balance_update_is_deleted_again() {
    let mut service = topup_service(1000, vec![], vec![false, true]);
    assert_eq!(
        service.create_topup(&fund(ANN, 200)),
        Err(AppError::StorageError(Stage::BalanceWrite))
    );
    assert_eq!(service.topup(1), None);
    assert_eq!(service.get_topup(1), Err(AppError::NotFound(Missing::Topup(1))));
    assert_eq!(topup_total(&service, ANN), 1000);
}

#[test]
fn topup_with_failed_balance_creation_is_deleted_again() {
    let mut service = topup_service(1000, vec![], vec![false, true]);
    assert_eq!(
        service.create_topup(&fund(BOB, 200)),
        Err(AppError::StorageError(Stage::BalanceWrite))
    );
    assert_eq!(service.topup(1), None);
    assert_eq!(service.balance_of(BOB), None);
}

#[test]
fn topup_with_failed_balance_read_is_deleted_again() {
    let mut service = topup_service(1000, vec![], vec![true]);
    assert_eq!(
        service.create_topup(&fund(ANN, 200)),
        Err(AppError::StorageError(Stage::BalanceRead))
    );
    assert_eq!(service.topup(1), None);
    assert_eq!(topup_total(&service, ANN), 1000);
}

#[test]
fn topup_whose_compensation_fails_stays_recorded() {
    let mut service = topup_service(1000, vec![false, true], vec![false, true]);
    assert_eq!(
        service.create_topup(&fund(ANN, 200)),
        Err(AppError::StorageError(Stage::BalanceWrite))
    );
    assert_eq!(service.topup(1).map(|record| record.topup_amount), Some(200));
    assert_eq!(topup_total(&service, ANN), 1000);
}

#[test]
fn topup_that_is_not_recorded_changes_nothing() {
    let mut service = topup_service(1000, vec![true], vec![]);
    assert_eq!(
        service.create_topup(&fund(ANN, 200)),
        Err(AppError::StorageError(Stage::LedgerWrite))
    );
    assert_eq!(topup_total(&service, ANN), 1000);
    assert_eq!(service.get_topups(), Ok(vec![]));
}

#[test]
fn topup_is_validated_before_anything_is_looked_up() {
    let mut service = topup_service(1000, vec![true], vec![true]);
    assert_eq!(
        service.create_topup(&fund(ANN, 0)),
        Err(AppError::ValidationError(Invalid::AmountNotPositive))
    );
    assert_eq!(
        service.create_topup(&fund(99, -1)),
        Err(AppError::ValidationError(Invalid::AmountNotPositive))
    );
    assert_eq!(
        service.update_topup(&revise(1, ANN, 0)),
        Err(AppError::ValidationError(Invalid::AmountNotPositive))
    );
    assert_eq!(service.get_topups(), Err(AppError::StorageError(Stage::LedgerRead)));
}

#[test]
fn topup_for_an_unknown_user_is_not_found() {
    let mut service = topup_service(1000, vec![], vec![]);
    assert_eq!(
        service.create_topup(&fund(99, 200)),
        Err(AppError::NotFound(Missing::User(99)))
    );
    assert_eq!(service.get_topups(), Ok(vec![]));
}

#[test]
fn topup_beyond_the_largest_total_is_refused_and_undone() {
    let mut service = topup_service(i32::MAX - 1, vec![], vec![]);
    assert_eq!(
        service.create_topup(&fund(ANN, 2)),
        Err(AppError::StorageError(Stage::BalanceLimit))
    );
    assert_eq!(topup_total(&service, ANN), i32::MAX - 1);
    assert_eq!(service.get_topups(), Ok(vec![]));
    service.create_topup(&fund(ANN, 1)).unwrap();
    assert_eq!(topup_total(&service, ANN), i32::MAX);
}

#[test]
fn amended_topup_changes_the_balance_by_the_difference() {
    let mut service = topup_service(1000, vec![], vec![]);
    service.create_topup(&fund(ANN, 200)).unwrap();
    let revised = service.update_topup(&revise(1, ANN, 500)).unwrap();
    assert_eq!(
        revised,
        TopupRecord {
            topup_id: 1,
            user_id: ANN,
            topup_no: String::from("T-1"),
            topup_amount: 500,
            topup_method: String::from("card"),
            topup_time: 1_700_000_200,
        }
    );
    assert_eq!(service.topup(1), Some(revised));
    assert_eq!(topup_total(&service, ANN), 1500);
    service.update_topup(&revise(1, ANN, 100)).unwrap();
    assert_eq!(topup_total(&service, ANN), 1100);
}

#[test]
fn failed_amendment_of_a_topup_restores_the_record() {
    let mut service = topup_service(1000, vec![], vec![]);
    let created = service.create_topup(&fund(ANN, 200)).unwrap();
    let mut service = topup_with_faults(service, vec![], vec![false, true]);
    assert_eq!(
        service.update_topup(&revise(1, ANN, 500)),
        Err(AppError::StorageError(Stage::BalanceWrite))
    );
    assert_eq!(service.topup(1), Some(created));
    assert_eq!(topup_total(&service, ANN), 1200);
}

#[test]
fn amending_a_topup_needs_the_record_and_a_balance() {
    let mut service = topup_service(1000, vec![], vec![]);
    assert_eq!(
        service.update_topup(&revise(5, ANN, 500)),
        Err(AppError::NotFound(Missing::Topup(5)))
    );
    assert_eq!(
        service.update_topup(&revise(5, 99, 500)),
        Err(AppError::NotFound(Missing::User(99)))
    );
    let created = service.create_topup(&fund(ANN, 200)).unwrap();
    // Bob has no balance: the amendment is taken back.
    assert_eq!(
        service.update_topup(&revise(1, BOB, 500)),
        Err(AppError::NotFound(Missing::Balance(BOB)))
    );
    assert_eq!(service.topup(1), Some(created));
    assert_eq!(topup_total(&service, ANN), 1200);
}

#[test]
fn deleting_a_topup_keeps_the_balance() {
    let mut service = topup_service(1000, vec![], vec![]);
    service.create_topup(&fund(ANN, 200)).unwrap();
    assert_eq!(service.delete_topup(1), Ok(()));
    assert_eq!(service.topup(1), None);
    assert_eq!(topup_total(&service, ANN), 1200);
    assert_eq!(service.delete_topup(1), Err(AppError::NotFound(Missing::Topup(1))));
    let mut service = topup_with_faults(service, vec![true], vec![]);
    assert_eq!(service.delete_topup(1), Err(AppError::StorageError(Stage::LedgerRead)));
}

#[test]
fn reading_topups() {
    let mut service = topup_service(1000, vec![], vec![]);
    let first = service.create_topup(&fund(ANN, 200)).unwrap();
    let second = service.create_topup(&fund(BOB, 30)).unwrap();
    let third = service.create_topup(&fund(ANN, 5)).unwrap();
    assert_eq!(service.get_topup(2), Ok(second.clone()));
    assert_eq!(service.get_topup(9), Err(AppError::NotFound(Missing::Topup(9))));
    assert_eq!(service.get_topups(), Ok(vec![first.clone(), second, third.clone()]));
    assert_eq!(service.get_topup_users(ANN), Ok(Some(vec![first.clone(), third])));
    assert_eq!(service.get_topup_user(ANN), Ok(Some(first)));
    assert_eq!(service.get_topup_users(99), Err(AppError::NotFound(Missing::User(99))));
    service.delete_topup(2).unwrap();
    assert_eq!(service.get_topup_users(BOB), Ok(None));
    assert_eq!(service.get_topup_user(BOB), Ok(None));
}
