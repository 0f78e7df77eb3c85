use example_payment_gateway::answers::{report_first, report_list, report_read};
use example_payment_gateway::directory::UserDirectory;
use example_payment_gateway::domain::{
    validate_transfer, Balance, CreateTopupRequest, TransferRecord, WithdrawRecord,
};
use example_payment_gateway::errors::{AppError, Invalid, Missing, Stage};
use example_payment_gateway::store::{Entry, FaultPlan, Ledger, StoreFault, Table};

fn held(user_id: i32, total_balance: i32) -> Balance {
    Balance { user_id, total_balance, withdraw_amount: None, withdraw_time: None }
}

fn payout(user_id: i32, amount: i32) -> WithdrawRecord {
    WithdrawRecord { withdraw_id: 0, user_id, withdraw_amount: amount, withdraw_time: 5 }
}

#[test]
fn fault_plan_answers_in_order_and_then_succeeds() {
    let mut plan = FaultPlan::scheduled(vec![false, true, true, false]);
    let drawn: Vec<bool> = (0..6).map(|_| plan.draw()).collect();
    assert_eq!(drawn, vec![false, true, true, false, false, false]);
    let mut none = FaultPlan::none();
    assert!(!none.draw());
}

#[test]
fn table_keeps_one_row_per_key() {
    let mut table: Table<Balance> = Table::new();
    assert_eq!(table.insert(held(1, 10)), Ok(()));
    assert_eq!(table.insert(held(2, 20)), Ok(()));
    assert_eq!(table.insert(held(1, 30)), Err(StoreFault::Rejected));
    assert_eq!(table.len(), 2);
    assert_eq!(table.peek(1), Some(held(1, 10)));
    assert_eq!(table.get(2), Ok(Some(held(2, 20))));
    assert_eq!(table.get(3), Ok(None));
}

#[test]
fn table_replaces_only_what_is_there() {
    let mut table: Table<Balance> = Table::new();
    table.insert(held(1, 10)).unwrap();
    assert_eq!(table.replace(held(1, 15)), Ok(()));
    assert_eq!(table.replace(held(2, 20)), Err(StoreFault::Rejected));
    assert_eq!(table.peek(1), Some(held(1, 15)));
    assert_eq!(table.peek(2), None);
}

#[test]
fn table_removes_idempotently() {
    let mut table: Table<Balance> = Table::new();
    table.insert(held(1, 10)).unwrap();
    table.insert(held(2, 20)).unwrap();
    assert_eq!(table.remove(1), Ok(()));
    assert_eq!(table.remove(1), Ok(()));
    assert_eq!(table.all(), Ok(vec![held(2, 20)]));
}

#[test]
fn table_fails_on_schedule_and_changes_nothing_then() {
    let mut table: Table<Balance> = Table::new();
    table.insert(held(1, 10)).unwrap();
    table.set_faults(vec![true, true, true, true, true, false]);
    assert_eq!(table.get(1), Err(StoreFault::Unavailable));
    assert_eq!(table.insert(held(2, 20)), Err(StoreFault::Unavailable));
    assert_eq!(table.replace(held(1, 11)), Err(StoreFault::Unavailable));
    assert_eq!(table.remove(1), Err(StoreFault::Unavailable));
    assert_eq!(table.list(1), Err(StoreFault::Unavailable));
    assert_eq!(table.all(), Ok(vec![held(1, 10)]));
}

#[test]
fn ledger_hands_out_the_keys() {
    let mut ledger: Ledger<WithdrawRecord> = Ledger::new();
    let first = ledger.create(payout(4, 100)).unwrap();
    let second = ledger.create(payout(5, 200)).unwrap();
    assert_eq!((first.withdraw_id, second.withdraw_id), (1, 2));
    assert_eq!(ledger.delete(2), Ok(()));
    // A key is not handed out twice.
    let third = ledger.create(payout(5, 300)).unwrap();
    assert_eq!(third.withdraw_id, 3);
    assert_eq!(ledger.peek(2), None);
    assert_eq!(ledger.get(3), Ok(Some(third)));
    assert_eq!(ledger.len(), 2);
}

#[test]
fn ledger_lists_by_user_oldest_first() {
    let mut ledger: Ledger<TransferRecord> = Ledger::new();
    let draft = |from: i32, to: i32| TransferRecord {
        transfer_id: 0,
        transfer_from: from,
        transfer_to: to,
        transfer_amount: 1,
    };
    let a = ledger.create(draft(1, 2)).unwrap();
    let b = ledger.create(draft(3, 4)).unwrap();
    let c = ledger.create(draft(2, 3)).unwrap();
    assert_eq!(ledger.list(2), Ok(vec![a, c]));
    assert_eq!(ledger.list(3), Ok(vec![b, c]));
    assert_eq!(ledger.list(9), Ok(vec![]));
    assert_eq!(ledger.all(), Ok(vec![a, b, c]));
}

#[test]
fn ledger_updates_in_place() {
    let mut ledger: Ledger<WithdrawRecord> = Ledger::new();
    let first = ledger.create(payout(4, 100)).unwrap();
    let second = ledger.create(payout(4, 200)).unwrap();
    let changed = WithdrawRecord { withdraw_amount: 150, ..first };
    assert_eq!(ledger.update(changed), Ok(changed));
    assert_eq!(ledger.all(), Ok(vec![changed, second]));
    let unknown = WithdrawRecord { withdraw_id: 9, ..first };
    assert_eq!(ledger.update(unknown), Err(StoreFault::Rejected));
    ledger.set_faults(vec![true]);
    assert_eq!(ledger.update(first), Err(StoreFault::Unavailable));
    assert_eq!(ledger.peek(1), Some(changed));
}

#[test]
fn entries_know_their_key_and_their_users() {
    let transfer =
        TransferRecord { transfer_id: 3, transfer_from: 1, transfer_to: 2, transfer_amount: 9 };
    assert_eq!(transfer.id(), 3);
    assert!(transfer.belongs_to(1) && transfer.belongs_to(2) && !transfer.belongs_to(3));
    assert_eq!(transfer.with_id(8).transfer_id, 8);
    assert_eq!(transfer.duplicate(), transfer);
    let balance = held(6, 1);
    assert_eq!(balance.id(), 6);
    assert!(balance.belongs_to(6) && !balance.belongs_to(1));
}

#[test]
fn directory_knows_who_is_registered() {
    let mut users = UserDirectory::new();
    assert!(!users.contains(1));
    users.register(1);
    users.register(1);
    users.register(-4);
    assert!(users.contains(1) && users.contains(-4) && !users.contains(4));
}

#[test]
fn validation_names_the_first_problem() {
    assert_eq!(validate_transfer(1, 2, 1), Ok(()));
    assert_eq!(validate_transfer(1, 2, 0), Err(Invalid::AmountNotPositive));
    assert_eq!(validate_transfer(1, 1, 5), Err(Invalid::SameAccount));
    assert_eq!(validate_transfer(1, 1, i32::MIN), Err(Invalid::AmountNotPositive));
    let request = CreateTopupRequest {
        user_id: 1,
        topup_no: String::from("T-1"),
        topup_amount: 1,
        topup_method: String::from("cash"),
        topup_time: 0,
    };
    assert_eq!(request.validate(), Ok(()));
    assert_eq!(request.to_draft().topup_method, "cash");
    assert_eq!(request.to_draft().topup_id, 0);
}

#[test]
fn reports_of_reads() {
    assert_eq!(report_read(Ok(Some(5)), Missing::Topup(1)), Ok(5));
    assert_eq!(
        report_read::<i32>(Ok(None), Missing::Topup(1)),
        Err(AppError::NotFound(Missing::Topup(1)))
    );
    assert_eq!(
        report_read::<i32>(Err(StoreFault::Unavailable), Missing::Topup(1)),
        Err(AppError::StorageError(Stage::LedgerRead))
    );
    assert_eq!(report_list::<i32>(vec![]), None);
    assert_eq!(report_list(vec![1, 2]), Some(vec![1, 2]));
    assert_eq!(report_first(&vec![held(1, 2), held(3, 4)]), Some(held(1, 2)));
    assert_eq!(report_first::<Balance>(&vec![]), None);
}

#[test]
fn errors_name_their_kind() {
    assert_eq!(AppError::ValidationError(Invalid::SameAccount).kind(), "ValidationError");
    assert_eq!(AppError::NotFound(Missing::User(1)).kind(), "NotFound");
    assert_eq!(
        AppError::InsufficientFunds { user_id: 1, balance: 2, amount: 3 }.kind(),
        "InsufficientFunds"
    );
    assert_eq!(AppError::StorageError(Stage::BalanceLimit).kind(), "StorageError");
}
