use crate::account::Account;
use crate::activity::{current_timestamp, AccountId, Activity, ActivityId, Timestamp};
use crate::activity_window::ActivityWindow;
use crate::money::Money;
use vstd::prelude::*;

verus! {

/// An account builder preset to account 42 with a baseline of 999 and an
/// empty window.
pub fn default_account() -> (r: AccountBuilder)
    ensures
        r.account_id == Some(AccountId(42)),
        r.baseline_balance matches Some(b) && b@ == 999,
        r.activity_window matches Some(w) && w@.len() == 0,
{
    AccountBuilder::new().with_account_id(AccountId(42)).with_baseline_balance(
        Money::of(999),
    ).with_activity_window(ActivityWindow::new(Vec::new()))
}

/// Collects the parts of an account; `build` needs all of them.
pub struct AccountBuilder {
    pub account_id: Option<AccountId>,
    pub baseline_balance: Option<Money>,
    pub activity_window: Option<ActivityWindow>,
}

impl AccountBuilder {
    pub fn new() -> (r: AccountBuilder)
        ensures
            r.account_id is None,
            r.baseline_balance is None,
            r.activity_window is None,
    {
        AccountBuilder { account_id: None, baseline_balance: None, activity_window: None }
    }

    pub fn with_account_id(self, account_id: AccountId) -> (r: AccountBuilder)
        ensures
            r == (AccountBuilder { account_id: Some(account_id), ..self }),
    {
        AccountBuilder { account_id: Some(account_id), ..self }
    }

    pub fn with_baseline_balance(self, baseline_balance: Money) -> (r: AccountBuilder)
        ensures
            r == (AccountBuilder { baseline_balance: Some(baseline_balance), ..self }),
    {
        AccountBuilder { baseline_balance: Some(baseline_balance), ..self }
    }

    pub fn with_activity_window(self, activity_window: ActivityWindow) -> (r: AccountBuilder)
        ensures
            r == (AccountBuilder { activity_window: Some(activity_window), ..self }),
    {
        AccountBuilder { activity_window: Some(activity_window), ..self }
    }

    pub fn build(self) -> (r: Account)
        requires
            self.account_id is Some,
            self.baseline_balance is Some,
            self.activity_window is Some,
        ensures
            r.id_spec() == self.account_id,
            r.baseline() == self.baseline_balance->0@,
            r.activities() == self.activity_window->0@,
    {
        match (self.account_id, self.baseline_balance, self.activity_window) {
            (Some(id), Some(baseline), Some(window)) => Account::with_id(id, baseline, window),
            _ => Account::without_id(Money::of(0), ActivityWindow::new(Vec::new())),
        }
    }
}

/// An activity builder preset to 999 moved from account 42, its owner, to
/// account 41, stamped with the current time.
pub fn default_activity() -> (r: ActivityBuilder)
    ensures
        r.id is None,
        r.owner_account_id == Some(AccountId(42)),
        r.source_account_id == Some(AccountId(42)),
        r.target_account_id == Some(AccountId(41)),
        r.timestamp is Some,
        r.money matches Some(m) && m@ == 999,
{
    ActivityBuilder::new().with_owner_account(AccountId(42)).with_source_account(
        AccountId(42),
    ).with_target_account(AccountId(41)).with_timestamp(current_timestamp()).with_money(
        Money::of(999),
    )
}

/// Collects the fields of an activity; `build` needs all but the id.
pub struct ActivityBuilder {
    pub id: Option<ActivityId>,
    pub owner_account_id: Option<AccountId>,
    pub source_account_id: Option<AccountId>,
    pub target_account_id: Option<AccountId>,
    pub timestamp: Option<Timestamp>,
    pub money: Option<Money>,
}

impl ActivityBuilder {
    pub fn new() -> (r: ActivityBuilder)
        ensures
            r.id is None,
            r.owner_account_id is None,
            r.source_account_id is None,
            r.target_account_id is None,
            r.timestamp is None,
            r.money is None,
    {
        ActivityBuilder {
            id: None,
            owner_account_id: None,
            source_account_id: None,
            target_account_id: None,
            timestamp: None,
            money: None,
        }
    }

    pub fn with_id(self, id: Option<ActivityId>) -> (r: ActivityBuilder)
        ensures
            r == (ActivityBuilder { id, ..self }),
    {
        ActivityBuilder { id, ..self }
    }

    pub fn with_owner_account(self, account_id: AccountId) -> (r: ActivityBuilder)
        ensures
            r == (ActivityBuilder { owner_account_id: Some(account_id), ..self }),
    {
        ActivityBuilder { owner_account_id: Some(account_id), ..self }
    }

    pub fn with_source_account(self, account_id: AccountId) -> (r: ActivityBuilder)
        ensures
            r == (ActivityBuilder { source_account_id: Some(account_id), ..self }),
    {
        ActivityBuilder { source_account_id: Some(account_id), ..self }
    }

    pub fn with_target_account(self, account_id: AccountId) -> (r: ActivityBuilder)
        ensures
            r == (ActivityBuilder { target_account_id: Some(account_id), ..self }),
    {
        ActivityBuilder { target_account_id: Some(account_id), ..self }
    }

    pub fn with_timestamp(self, timestamp: Timestamp) -> (r: ActivityBuilder)
        ensures
            r == (ActivityBuilder { timestamp: Some(timestamp), ..self }),
    {
        ActivityBuilder { timestamp: Some(timestamp), ..self }
    }

    pub fn with_money(self, money: Money) -> (r: ActivityBuilder)
        ensures
            r == (ActivityBuilder { money: Some(money), ..self }),
    {
        ActivityBuilder { money: Some(money), ..self }
    }

    pub fn build(self) -> (r: Activity)
        requires
            self.owner_account_id is Some,
            self.source_account_id is Some,
            self.target_account_id is Some,
            self.timestamp is Some,
            self.money is Some,
        ensures
            r.id == self.id,
            Some(r.owner_account_id) == self.owner_account_id,
            Some(r.source_account_id) == self.source_account_id,
            Some(r.target_account_id) == self.target_account_id,
            Some(r.timestamp) == self.timestamp,
            Some(r.money) == self.money,
    {
        match (self.owner_account_id, self.source_account_id, self.target_account_id, self.timestamp, self.money) {
            (Some(owner), Some(source), Some(target), Some(timestamp), Some(money)) => Activity::with_id(
                self.id,
                owner,
                source,
                target,
                timestamp,
                money,
            ),
            _ => Activity::new(AccountId(0), AccountId(0), AccountId(0), Timestamp(0), Money::of(0)),
        }
    }
}

} // verus!
