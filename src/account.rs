use crate::activity::{current_timestamp, AccountId, Activity, Timestamp};
use crate::activity_window::{lemma_window_balance_push, window_balance, ActivityWindow};
use crate::money::Money;
use vstd::prelude::*;

verus! {

/// An account holding money. Only a window of its latest activities is kept;
/// its balance is the baseline balance, valid before the first activity of the
/// window, plus what the window's activities add.
#[derive(Debug)]
pub struct Account {
    id: Option<AccountId>,
    baseline_balance: Money,
    activity_window: ActivityWindow,
}

impl Account {
    /// The account's id; `None` for an account never stored.
    pub closed spec fn id_spec(&self) -> Option<AccountId> {
        self.id
    }

    /// The balance before the first activity of the window.
    pub closed spec fn baseline(&self) -> int {
        self.baseline_balance@
    }

    /// The activities of the window, in the order they were added.
    pub closed spec fn activities(&self) -> Seq<Activity> {
        self.activity_window@
    }

    /// Baseline plus the net change of the window, for the account's own id.
    pub open spec fn balance(&self) -> int
        recommends
            self.id_spec() is Some,
    {
        self.baseline() + window_balance(self.activities(), self.id_spec()->0)
    }

    /// `after` is `before` with one more activity: not stored yet, owned by
    /// `before`'s account, moving `amount` from `source` to `target`.
    pub open spec fn appended(
        before: Account,
        after: Account,
        source: AccountId,
        target: AccountId,
        amount: int,
    ) -> bool {
        &&& after.id_spec() == before.id_spec()
        &&& after.baseline() == before.baseline()
        &&& after.activities().len() == before.activities().len() + 1
        &&& after.activities().drop_last() == before.activities()
        &&& after.activities().last().id is None
        &&& after.activities().last().owner_account_id == before.id_spec()->0
        &&& after.activities().last().source_account_id == source
        &&& after.activities().last().target_account_id == target
        &&& after.activities().last().money@ == amount
    }

    fn new(id: Option<AccountId>, baseline_balance: Money, activity_window: ActivityWindow) -> (r:
        Account)
        ensures
            r.id_spec() == id,
            r.baseline() == baseline_balance@,
            r.activities() == activity_window@,
    {
        Account { id, baseline_balance, activity_window }
    }

    pub fn without_id(baseline_balance: Money, activity_window: ActivityWindow) -> (r: Account)
        ensures
            r.id_spec() is None,
            r.baseline() == baseline_balance@,
            r.activities() == activity_window@,
    {
        Account::new(None, baseline_balance, activity_window)
    }

    pub fn with_id(account_id: AccountId, baseline_balance: Money, activity_window: ActivityWindow) -> (r:
        Account)
        ensures
            r.id_spec() == Some(account_id),
            r.baseline() == baseline_balance@,
            r.activities() == activity_window@,
    {
        Account::new(Some(account_id), baseline_balance, activity_window)
    }

    pub fn get_id(&self) -> (r: Option<AccountId>)
        ensures
            r == self.id_spec(),
    {
        self.id
    }

    pub fn get_activity_window(&self) -> (r: &ActivityWindow)
        ensures
            r@ == self.activities(),
    {
        &self.activity_window
    }

    /// Baseline balance plus the balance of the activity window.
    pub fn calculate_balance(&self) -> (r: Money)
        requires
            self.id_spec() is Some,
        ensures
            r@ == self.baseline() + window_balance(self.activities(), self.id_spec()->0),
            r@ == self.balance(),
    {
        let id = match self.id {
            Some(id) => id,
            None => AccountId(0),
        };
        Money::add(&self.baseline_balance, &self.activity_window.calculate_balance(&id))
    }

    /// Whether the balance stays at zero or above after taking out `money`.
    fn may_withdraw(&self, money: &Money) -> (r: bool)
        requires
            self.id_spec() is Some,
        ensures
            r == (self.balance() - money@ >= 0),
    {
        Money::add(&self.calculate_balance(), &money.negate()).is_positive_or_zero()
    }

    /// Withdraws `money` towards `target_account_id`, recording the activity
    /// at `timestamp`. Refused, with nothing changed, where the balance would
    /// fall below zero.
    pub fn withdraw_at(&mut self, money: Money, target_account_id: AccountId, timestamp: Timestamp) -> (r:
        bool)
        requires
            old(self).id_spec() is Some,
        ensures
            r == (old(self).balance() - money@ >= 0),
            !r ==> *final(self) == *old(self),
            r ==> Account::appended(*old(self), *final(self), old(self).id_spec()->0, target_account_id, money@),
            r ==> final(self).activities().last().timestamp == timestamp,
            r && target_account_id != old(self).id_spec()->0 ==> final(self).balance() == old(self).balance()
                - money@,
    {
        if !self.may_withdraw(&money) {
            return false;
        }
        let id = match self.id {
            Some(id) => id,
            None => AccountId(0),
        };
        let withdrawal = Activity::new(id, id, target_account_id, timestamp, money);
        proof {
            lemma_window_balance_push(self.activities(), withdrawal, id);
        }
        self.activity_window.add_activity(withdrawal);
        assert(self.activities().drop_last() =~= old(self).activities());
        true
    }

    /// Deposits `money` coming from `source_account_id`, recording the
    /// activity at `timestamp`. Always accepted.
    pub fn deposit_at(&mut self, money: Money, source_account_id: AccountId, timestamp: Timestamp) -> (r:
        bool)
        requires
            old(self).id_spec() is Some,
        ensures
            r,
            Account::appended(*old(self), *final(self), source_account_id, old(self).id_spec()->0, money@),
            final(self).activities().last().timestamp == timestamp,
            source_account_id != old(self).id_spec()->0 ==> final(self).balance() == old(self).balance()
                + money@,
    {
        let id = match self.id {
            Some(id) => id,
            None => AccountId(0),
        };
        let deposit = Activity::new(id, source_account_id, id, timestamp, money);
        proof {
            lemma_window_balance_push(self.activities(), deposit, id);
        }
        self.activity_window.add_activity(deposit);
        assert(self.activities().drop_last() =~= old(self).activities());
        true
    }

    /// Withdraws `money` towards `target_account_id`, stamped with the current
    /// time. Refused, with nothing changed, where the balance would fall below
    /// zero.
    pub fn withdraw(&mut self, money: Money, target_account_id: AccountId) -> (r: bool)
        requires
            old(self).id_spec() is Some,
        ensures
            r == (old(self).balance() - money@ >= 0),
            !r ==> *final(self) == *old(self),
            r ==> Account::appended(*old(self), *final(self), old(self).id_spec()->0, target_account_id, money@),
            r && target_account_id != old(self).id_spec()->0 ==> final(self).balance() == old(self).balance()
                - money@,
    {
        let timestamp = current_timestamp();
        self.withdraw_at(money, target_account_id, timestamp)
    }

    /// Deposits `money` coming from `source_account_id`, stamped with the
    /// current time. Always accepted.
    pub fn deposit(&mut self, money: Money, source_account_id: AccountId) -> (r: bool)
        requires
            old(self).id_spec() is Some,
        ensures
            r,
            Account::appended(*old(self), *final(self), source_account_id, old(self).id_spec()->0, money@),
            source_account_id != old(self).id_spec()->0 ==> final(self).balance() == old(self).balance()
                + money@,
    {
        let timestamp = current_timestamp();
        self.deposit_at(money, source_account_id, timestamp)
    }
}

} // verus!
