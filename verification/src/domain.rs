//! Balances, the three kinds of ledger record, and the requests that change
//! them.

use crate::errors::Invalid;
use crate::store::{lookup, Entry};
use vstd::prelude::*;

verus! {

/// A user's current total, in minor currency units, with what is known of the
/// last withdrawal. There is at most one per user.
#[derive(Clone, Copy, PartialEq, Eq, Debug)]
pub struct Balance {
    pub user_id: i32,
    pub total_balance: i32,
    pub withdraw_amount: Option<i32>,
    pub withdraw_time: Option<i64>,
}

impl Balance {
    /// The balance that a user's first top-up opens.
    pub open spec fn opened(user_id: i32, total_balance: i32) -> Balance {
        Balance { user_id, total_balance, withdraw_amount: None, withdraw_time: None }
    }

    /// The same balance with another total.
    pub open spec fn with_total(self, total_balance: i32) -> Balance {
        Balance {
            user_id: self.user_id,
            total_balance,
            withdraw_amount: self.withdraw_amount,
            withdraw_time: self.withdraw_time,
        }
    }

    /// The balance after a withdrawal that left `total_balance`.
    pub open spec fn withdrawn(self, total_balance: i32, amount: i32, time: i64) -> Balance {
        Balance {
            user_id: self.user_id,
            total_balance,
            withdraw_amount: Some(amount),
            withdraw_time: Some(time),
        }
    }
}

impl Entry for Balance {
    open spec fn key(&self) -> i32 {
        self.user_id
    }

    open spec fn keyed(self, key: i32) -> Balance {
        Balance {
            user_id: key,
            total_balance: self.total_balance,
            withdraw_amount: self.withdraw_amount,
            withdraw_time: self.withdraw_time,
        }
    }

    open spec fn concerns(&self, user_id: i32) -> bool {
        self.user_id == user_id
    }

    proof fn keyed_has_key(self, key: i32) {
    }

    fn id(&self) -> i32 {
        self.user_id
    }

    fn with_id(self, key: i32) -> Balance {
        Balance {
            user_id: key,
            total_balance: self.total_balance,
            withdraw_amount: self.withdraw_amount,
            withdraw_time: self.withdraw_time,
        }
    }

    fn belongs_to(&self, user_id: i32) -> bool {
        self.user_id == user_id
    }

    fn duplicate(&self) -> Balance {
        *self
    }
}

/// Whether a total is one that a balance can hold.
pub open spec fn holdable(total: int) -> bool {
    i32::MIN <= total <= i32::MAX
}

/// The total that a user holds, and zero where the user has no balance.
pub open spec fn total_of(rows: Seq<Balance>, user_id: i32) -> int {
    match lookup(rows, user_id) {
        Some(balance) => balance.total_balance as int,
        None => 0,
    }
}

/// One funding event. `topup_no` is the reference that the payer gave; times
/// are seconds since the Unix epoch.
#[derive(PartialEq, Eq, Debug)]
pub struct TopupRecord {
    pub topup_id: i32,
    pub user_id: i32,
    pub topup_no: String,
    pub topup_amount: i32,
    pub topup_method: String,
    pub topup_time: i64,
}

impl Clone for TopupRecord {
    fn clone(&self) -> (copy: TopupRecord)
        ensures
            copy == *self,
    {
        TopupRecord {
            topup_id: self.topup_id,
            user_id: self.user_id,
            topup_no: self.topup_no.clone(),
            topup_amount: self.topup_amount,
            topup_method: self.topup_method.clone(),
            topup_time: self.topup_time,
        }
    }
}

impl Entry for TopupRecord {
    open spec fn key(&self) -> i32 {
        self.topup_id
    }

    open spec fn keyed(self, key: i32) -> TopupRecord {
        TopupRecord {
            topup_id: key,
            user_id: self.user_id,
            topup_no: self.topup_no,
            topup_amount: self.topup_amount,
            topup_method: self.topup_method,
            topup_time: self.topup_time,
        }
    }

    open spec fn concerns(&self, user_id: i32) -> bool {
        self.user_id == user_id
    }

    proof fn keyed_has_key(self, key: i32) {
    }

    fn id(&self) -> i32 {
        self.topup_id
    }

    fn with_id(self, key: i32) -> TopupRecord {
        TopupRecord {
            topup_id: key,
            user_id: self.user_id,
            topup_no: self.topup_no,
            topup_amount: self.topup_amount,
            topup_method: self.topup_method,
            topup_time: self.topup_time,
        }
    }

    fn belongs_to(&self, user_id: i32) -> bool {
        self.user_id == user_id
    }

    fn duplicate(&self) -> TopupRecord {
        self.clone()
    }
}

/// One movement of money from one user to another.
#[derive(Clone, Copy, PartialEq, Eq, Debug)]
pub struct TransferRecord {
    pub transfer_id: i32,
    pub transfer_from: i32,
    pub transfer_to: i32,
    pub transfer_amount: i32,
}

impl Entry for TransferRecord {
    open spec fn key(&self) -> i32 {
        self.transfer_id
    }

    open spec fn keyed(self, key: i32) -> TransferRecord {
        TransferRecord {
            transfer_id: key,
            transfer_from: self.transfer_from,
            transfer_to: self.transfer_to,
            transfer_amount: self.transfer_amount,
        }
    }

    open spec fn concerns(&self, user_id: i32) -> bool {
        self.transfer_from == user_id || self.transfer_to == user_id
    }

    proof fn keyed_has_key(self, key: i32) {
    }

    fn id(&self) -> i32 {
        self.transfer_id
    }

    fn with_id(self, key: i32) -> TransferRecord {
        TransferRecord {
            transfer_id: key,
            transfer_from: self.transfer_from,
            transfer_to: self.transfer_to,
            transfer_amount: self.transfer_amount,
        }
    }

    fn belongs_to(&self, user_id: i32) -> bool {
        self.transfer_from == user_id || self.transfer_to == user_id
    }

    fn duplicate(&self) -> TransferRecord {
        *self
    }
}

/// One debit event. Times are seconds since the Unix epoch.
#[derive(Clone, Copy, PartialEq, Eq, Debug)]
pub struct WithdrawRecord {
    pub withdraw_id: i32,
    pub user_id: i32,
    pub withdraw_amount: i32,
    pub withdraw_time: i64,
}

impl Entry for WithdrawRecord {
    open spec fn key(&self) -> i32 {
        self.withdraw_id
    }

    open spec fn keyed(self, key: i32) -> WithdrawRecord {
        WithdrawRecord {
            withdraw_id: key,
            user_id: self.user_id,
            withdraw_amount: self.withdraw_amount,
            withdraw_time: self.withdraw_time,
        }
    }

    open spec fn concerns(&self, user_id: i32) -> bool {
        self.user_id == user_id
    }

    proof fn keyed_has_key(self, key: i32) {
    }

    fn id(&self) -> i32 {
        self.withdraw_id
    }

    fn with_id(self, key: i32) -> WithdrawRecord {
        WithdrawRecord {
            withdraw_id: key,
            user_id: self.user_id,
            withdraw_amount: self.withdraw_amount,
            withdraw_time: self.withdraw_time,
        }
    }

    fn belongs_to(&self, user_id: i32) -> bool {
        self.user_id == user_id
    }

    fn duplicate(&self) -> WithdrawRecord {
        *self
    }
}

/// What an amount must be to be moved at all.
pub open spec fn amount_verdict(amount: i32) -> Result<(), Invalid> {
    if amount > 0 {
        Ok(())
    } else {
        Err(Invalid::AmountNotPositive)
    }
}

/// A request to fund a user's balance.
#[derive(PartialEq, Eq, Debug)]
pub struct CreateTopupRequest {
    pub user_id: i32,
    pub topup_no: String,
    pub topup_amount: i32,
    pub topup_method: String,
    pub topup_time: i64,
}

impl CreateTopupRequest {
    /// What validation says of the request.
    pub open spec fn verdict(&self) -> Result<(), Invalid> {
        amount_verdict(self.topup_amount)
    }

    /// The record that the request asks for, before the ledger gives it a key.
    pub open spec fn draft(&self) -> TopupRecord {
        TopupRecord {
            topup_id: 0,
            user_id: self.user_id,
            topup_no: self.topup_no,
            topup_amount: self.topup_amount,
            topup_method: self.topup_method,
            topup_time: self.topup_time,
        }
    }

    /// Accepts a request with a positive amount.
    pub fn validate(&self) -> (verdict: Result<(), Invalid>)
        ensures
            verdict == self.verdict(),
    {
        if self.topup_amount > 0 {
            Ok(())
        } else {
            Err(Invalid::AmountNotPositive)
        }
    }

    /// See [`CreateTopupRequest::draft`].
    pub fn to_draft(&self) -> (record: TopupRecord)
        ensures
            record == self.draft(),
    {
        TopupRecord {
            topup_id: 0,
            user_id: self.user_id,
            topup_no: self.topup_no.clone(),
            topup_amount: self.topup_amount,
            topup_method: self.topup_method.clone(),
            topup_time: self.topup_time,
        }
    }
}

/// A request to change a top-up that was recorded before.
#[derive(PartialEq, Eq, Debug)]
pub struct UpdateTopupRequest {
    pub topup_id: i32,
    pub user_id: i32,
    pub topup_no: String,
    pub topup_amount: i32,
    pub topup_method: String,
    pub topup_time: i64,
}

impl UpdateTopupRequest {
    /// What validation says of the request.
    pub open spec fn verdict(&self) -> Result<(), Invalid> {
        amount_verdict(self.topup_amount)
    }

    /// The record as the request wants it to read.
    pub open spec fn revised(&self) -> TopupRecord {
        TopupRecord {
            topup_id: self.topup_id,
            user_id: self.user_id,
            topup_no: self.topup_no,
            topup_amount: self.topup_amount,
            topup_method: self.topup_method,
            topup_time: self.topup_time,
        }
    }

    /// Accepts a request with a positive amount.
    pub fn validate(&self) -> (verdict: Result<(), Invalid>)
        ensures
            verdict == self.verdict(),
    {
        if self.topup_amount > 0 {
            Ok(())
        } else {
            Err(Invalid::AmountNotPositive)
        }
    }

    /// See [`UpdateTopupRequest::revised`].
    pub fn to_revised(&self) -> (record: TopupRecord)
        ensures
            record == self.revised(),
    {
        TopupRecord {
            topup_id: self.topup_id,
            user_id: self.user_id,
            topup_no: self.topup_no.clone(),
            topup_amount: self.topup_amount,
            topup_method: self.topup_method.clone(),
            topup_time: self.topup_time,
        }
    }
}

/// What the amount and the two parties of a transfer must be.
pub open spec fn transfer_verdict(from: i32, to: i32, amount: i32) -> Result<(), Invalid> {
    if amount <= 0 {
        Err(Invalid::AmountNotPositive)
    } else if from == to {
        Err(Invalid::SameAccount)
    } else {
        Ok(())
    }
}

/// Accepts a positive amount between two different users.
pub fn validate_transfer(from: i32, to: i32, amount: i32) -> (verdict: Result<(), Invalid>)
    ensures
        verdict == transfer_verdict(from, to, amount),
{
    if amount <= 0 {
        Err(Invalid::AmountNotPositive)
    } else if from == to {
        Err(Invalid::SameAccount)
    } else {
        Ok(())
    }
}

/// A request to move money from one user to another.
#[derive(Clone, Copy, PartialEq, Eq, Debug)]
pub struct CreateTransferRequest {
    pub transfer_from: i32,
    pub transfer_to: i32,
    pub transfer_amount: i32,
}

impl CreateTransferRequest {
    /// What validation says of the request.
    pub open spec fn verdict(&self) -> Result<(), Invalid> {
        transfer_verdict(self.transfer_from, self.transfer_to, self.transfer_amount)
    }

    /// The record that the request asks for, before the ledger gives it a key.
    pub open spec fn draft(&self) -> TransferRecord {
        TransferRecord {
            transfer_id: 0,
            transfer_from: self.transfer_from,
            transfer_to: self.transfer_to,
            transfer_amount: self.transfer_amount,
        }
    }

    /// Accepts a positive amount between two different users.
    pub fn validate(&self) -> (verdict: Result<(), Invalid>)
        ensures
            verdict == self.verdict(),
    {
        validate_transfer(self.transfer_from, self.transfer_to, self.transfer_amount)
    }

    /// See [`CreateTransferRequest::draft`].
    pub fn to_draft(&self) -> (record: TransferRecord)
        ensures
            record == self.draft(),
    {
        TransferRecord {
            transfer_id: 0,
            transfer_from: self.transfer_from,
            transfer_to: self.transfer_to,
            transfer_amount: self.transfer_amount,
        }
    }
}

/// A request to change a transfer that was recorded before.
#[derive(Clone, Copy, PartialEq, Eq, Debug)]
pub struct UpdateTransferRequest {
    pub transfer_id: i32,
    pub transfer_from: i32,
    pub transfer_to: i32,
    pub transfer_amount: i32,
}

impl UpdateTransferRequest {
    /// What validation says of the request.
    pub open spec fn verdict(&self) -> Result<(), Invalid> {
        transfer_verdict(self.transfer_from, self.transfer_to, self.transfer_amount)
    }

    /// The record as the request wants it to read.
    pub open spec fn revised(&self) -> TransferRecord {
        TransferRecord {
            transfer_id: self.transfer_id,
            transfer_from: self.transfer_from,
            transfer_to: self.transfer_to,
            transfer_amount: self.transfer_amount,
        }
    }

    /// Accepts a positive amount between two different users.
    pub fn validate(&self) -> (verdict: Result<(), Invalid>)
        ensures
            verdict == self.verdict(),
    {
        validate_transfer(self.transfer_from, self.transfer_to, self.transfer_amount)
    }

    /// See [`UpdateTransferRequest::revised`].
    pub fn to_revised(&self) -> (record: TransferRecord)
        ensures
            record == self.revised(),
    {
        TransferRecord {
            transfer_id: self.transfer_id,
            transfer_from: self.transfer_from,
            transfer_to: self.transfer_to,
            transfer_amount: self.transfer_amount,
        }
    }
}

/// A request to pay out of a user's balance.
#[derive(Clone, Copy, PartialEq, Eq, Debug)]
pub struct CreateWithdrawRequest {
    pub user_id: i32,
    pub withdraw_amount: i32,
    pub withdraw_time: i64,
}

impl CreateWithdrawRequest {
    /// What validation says of the request.
    pub open spec fn verdict(&self) -> Result<(), Invalid> {
        amount_verdict(self.withdraw_amount)
    }

    /// The record that the request asks for, before the ledger gives it a key.
    pub open spec fn draft(&self) -> WithdrawRecord {
        WithdrawRecord {
            withdraw_id: 0,
            user_id: self.user_id,
            withdraw_amount: self.withdraw_amount,
            withdraw_time: self.withdraw_time,
        }
    }

    /// Accepts a request with a positive amount.
    pub fn validate(&self) -> (verdict: Result<(), Invalid>)
        ensures
            verdict == self.verdict(),
    {
        if self.withdraw_amount > 0 {
            Ok(())
        } else {
            Err(Invalid::AmountNotPositive)
        }
    }

    /// See [`CreateWithdrawRequest::draft`].
    pub fn to_draft(&self) -> (record: WithdrawRecord)
        ensures
            record == self.draft(),
    {
        WithdrawRecord {
            withdraw_id: 0,
            user_id: self.user_id,
            withdraw_amount: self.withdraw_amount,
            withdraw_time: self.withdraw_time,
        }
    }
}

/// A request to change a withdrawal that was recorded before.
#[derive(Clone, Copy, PartialEq, Eq, Debug)]
pub struct UpdateWithdrawRequest {
    pub withdraw_id: i32,
    pub user_id: i32,
    pub withdraw_amount: i32,
    pub withdraw_time: i64,
}

impl UpdateWithdrawRequest {
    /// What validation says of the request.
    pub open spec fn verdict(&self) -> Result<(), Invalid> {
        amount_verdict(self.withdraw_amount)
    }

    /// The record as the request wants it to read.
    pub open spec fn revised(&self) -> WithdrawRecord {
        WithdrawRecord {
            withdraw_id: self.withdraw_id,
            user_id: self.user_id,
            withdraw_amount: self.withdraw_amount,
            withdraw_time: self.withdraw_time,
        }
    }

    /// Accepts a request with a positive amount.
    pub fn validate(&self) -> (verdict: Result<(), Invalid>)
        ensures
            verdict == self.verdict(),
    {
        if self.withdraw_amount > 0 {
            Ok(())
        } else {
            Err(Invalid::AmountNotPositive)
        }
    }

    /// See [`UpdateWithdrawRequest::revised`].
    pub fn to_revised(&self) -> (record: WithdrawRecord)
        ensures
            record == self.revised(),
    {
        WithdrawRecord {
            withdraw_id: self.withdraw_id,
            user_id: self.user_id,
            withdraw_amount: self.withdraw_amount,
            withdraw_time: self.withdraw_time,
        }
    }
}

} // verus!
