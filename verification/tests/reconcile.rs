use example_payment_gateway::directory::UserDirectory;
use example_payment_gateway::domain::{
    Balance, CreateTopupRequest, CreateTransferRequest, CreateWithdrawRequest, TopupRecord,
    TransferRecord, WithdrawRecord,
};
use example_payment_gateway::errors::{AppError, Stage};
use example_payment_gateway::services::topup::TopupService;
use example_payment_gateway::services::transfer::TransferService;
use example_payment_gateway::services::withdraw::WithdrawService;
use example_payment_gateway::store::{Ledger, Table};

const KIM: i32 = 31;
const LEO: i32 = 32;

fn people() -> UserDirectory {
    let mut users = UserDirectory::new();
    users.register(KIM);
    users.register(LEO);
    users
}

fn funding(user_id: i32, amount: i32) -> CreateTopupRequest {
    CreateTopupRequest {
        user_id,
        topup_no: String::from("T-9"),
        topup_amount: amount,
        topup_method: String::from("bank"),
        topup_time: 10,
    }
}

fn topped_up(rows: &[TopupRecord], user_id: i32) -> i32 {
    rows.iter().filter(|r| r.user_id == user_id).map(|r| r.topup_amount).sum()
}

fn withdrawn(rows: &[WithdrawRecord], user_id: i32) -> i32 {
    rows.iter().filter(|r| r.user_id == user_id).map(|r| r.withdraw_amount).sum()
}

fn transferred(rows: &[TransferRecord], user_id: i32) -> i32 {
    rows.iter()
        .map(|r| {
            (if r.transfer_to == user_id { r.transfer_amount } else { 0 })
                - (if r.transfer_from == user_id { r.transfer_amount } else { 0 })
        })
        .sum()
}

#[test]
fn totals_are_what_the_ledgers_add_up_to() {
    // Both start without a balance: whatever they hold comes out of the ledgers.
    let balances: Table<Balance> = Table::new();

    let mut topups = TopupService::new(Ledger::new(), balances, people());
    topups.create_topup(&funding(KIM, 1000)).unwrap();
    topups.create_topup(&funding(LEO, 500)).unwrap();
    topups.create_topup(&funding(KIM, 250)).unwrap();
    // A top-up whose balance write fails is taken back and counts for nothing.
    let (mut ledger, mut balances, users) = topups.into_repositories();
    balances.set_faults(vec![false, true]);
    let mut topups = TopupService::new(ledger, balances, users);
    assert_eq!(
        topups.create_topup(&funding(LEO, 70)),
        Err(AppError::StorageError(Stage::BalanceWrite))
    );
    let topup_rows = topups.get_topups().unwrap();
    (ledger, balances, _) = topups.into_repositories();
    assert_eq!(ledger.len(), 3);

    let mut transfers = TransferService::new(Ledger::new(), balances, people());
    transfers
        .create_transfer(&CreateTransferRequest {
            transfer_from: KIM,
            transfer_to: LEO,
            transfer_amount: 300,
        })
        .unwrap();
    transfers
        .create_transfer(&CreateTransferRequest {
            transfer_from: LEO,
            transfer_to: KIM,
            transfer_amount: 45,
        })
        .unwrap();
    assert!(transfers
        .create_transfer(&CreateTransferRequest {
            transfer_from: LEO,
            transfer_to: KIM,
            transfer_amount: 5000,
        })
        .is_err());
    let transfer_rows = transfers.get_transfers().unwrap();
    let (_, balances, _) = transfers.into_repositories();

    let mut withdraws = WithdrawService::new(Ledger::new(), balances, people());
    withdraws
        .create_withdraw(&CreateWithdrawRequest {
            user_id: KIM,
            withdraw_amount: 95,
            withdraw_time: 20,
        })
        .unwrap();
    assert!(withdraws
        .create_withdraw(&CreateWithdrawRequest {
            user_id: LEO,
            withdraw_amount: 756,
            withdraw_time: 21,
        })
        .is_err());
    let withdraw_rows = withdraws.get_withdraws().unwrap();

    for user in [KIM, LEO] {
        let total = withdraws.balance_of(user).unwrap().total_balance;
        assert_eq!(
            total,
            topped_up(&topup_rows, user) - withdrawn(&withdraw_rows, user)
                + transferred(&transfer_rows, user)
        );
    }
    assert_eq!(withdraws.balance_of(KIM).unwrap().total_balance, 900);
    assert_eq!(withdraws.balance_of(LEO).unwrap().total_balance, 755);
}

#[test]
fn deleting_a_record_moves_the_total_ahead_of_the_ledger() {
    let mut topups = TopupService::new(Ledger::new(), Table::new(), people());
    topups.create_topup(&funding(KIM, 1000)).unwrap();
    topups.create_topup(&funding(KIM, 250)).unwrap();
    topups.delete_topup(1).unwrap();
    let rows = topups.get_topups().unwrap();
    let total = topups.balance_of(KIM).unwrap().total_balance;
    assert_eq!(total, 1250);
    assert_eq!(topped_up(&rows, KIM), 250);
    assert_eq!(total - topped_up(&rows, KIM), 1000);
}
