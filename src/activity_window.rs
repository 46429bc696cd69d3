use crate::activity::{AccountId, Activity, Timestamp};
use crate::money::Money;
use vstd::prelude::*;

verus! {

/// Sum of the money of the activities that credit `id`.
pub open spec fn deposits_to(activities: Seq<Activity>, id: AccountId) -> int
    decreases activities.len(),
{
    if activities.len() == 0 {
        0
    } else {
        let last = activities.last();
        deposits_to(activities.drop_last(), id) + if last.target_account_id == id {
            last.money@
        } else {
            0
        }
    }
}

/// Sum of the money of the activities that debit `id`.
pub open spec fn withdrawals_from(activities: Seq<Activity>, id: AccountId) -> int
    decreases activities.len(),
{
    if activities.len() == 0 {
        0
    } else {
        let last = activities.last();
        withdrawals_from(activities.drop_last(), id) + if last.source_account_id == id {
            last.money@
        } else {
            0
        }
    }
}

/// Net change that the activities bring to the balance of `id`.
pub open spec fn window_balance(activities: Seq<Activity>, id: AccountId) -> int {
    deposits_to(activities, id) - withdrawals_from(activities, id)
}

/// What one activity adds to the balance of `id`.
pub open spec fn balance_delta(activity: Activity, id: AccountId) -> int {
    (if activity.target_account_id == id { activity.money@ } else { 0 }) - (if activity.source_account_id
        == id {
        activity.money@
    } else {
        0
    })
}

/// Appending an activity changes the balance of every account by what that
/// activity credits it, less what it debits it.
pub proof fn lemma_window_balance_push(activities: Seq<Activity>, activity: Activity, id: AccountId)
    ensures
        window_balance(activities.push(activity), id) == window_balance(activities, id)
            + balance_delta(activity, id),
{
    assert(activities.push(activity).drop_last() =~= activities);
}

/// The activities of an account over a trailing period.
#[derive(Debug)]
pub struct ActivityWindow {
    pub activities: Vec<Activity>,
}

impl View for ActivityWindow {
    type V = Seq<Activity>;

    open spec fn view(&self) -> Seq<Activity> {
        self.activities@
    }
}

impl ActivityWindow {
    pub fn new(activities: Vec<Activity>) -> (r: ActivityWindow)
        ensures
            r@ == activities@,
    {
        ActivityWindow { activities }
    }

    /// The earliest timestamp in the window.
    pub fn get_start_timestamp(&self) -> (r: Timestamp)
        requires
            self@.len() > 0,
        ensures
            exists|i: int| 0 <= i < self@.len() && self@[i].timestamp == r,
            forall|i: int| 0 <= i < self@.len() ==> r.0 <= #[trigger] self@[i].timestamp.0,
    {
        let mut min = self.activities[0].timestamp;
        let mut k: usize = 1;
        while k < self.activities.len()
            invariant
                1 <= k <= self@.len(),
                exists|i: int| 0 <= i < k && self@[i].timestamp == min,
                forall|i: int| 0 <= i < k ==> min.0 <= #[trigger] self@[i].timestamp.0,
            decreases self@.len() - k,
        {
            if self.activities[k].timestamp.0 < min.0 {
                min = self.activities[k].timestamp;
            }
            k = k + 1;
        }
        min
    }

    /// The latest timestamp in the window.
    pub fn get_end_timestamp(&self) -> (r: Timestamp)
        requires
            self@.len() > 0,
        ensures
            exists|i: int| 0 <= i < self@.len() && self@[i].timestamp == r,
            forall|i: int| 0 <= i < self@.len() ==> #[trigger] self@[i].timestamp.0 <= r.0,
    {
        let mut max = self.activities[0].timestamp;
        let mut k: usize = 1;
        while k < self.activities.len()
            invariant
                1 <= k <= self@.len(),
                exists|i: int| 0 <= i < k && self@[i].timestamp == max,
                forall|i: int| 0 <= i < k ==> #[trigger] self@[i].timestamp.0 <= max.0,
            decreases self@.len() - k,
        {
            if self.activities[k].timestamp.0 > max.0 {
                max = self.activities[k].timestamp;
            }
            k = k + 1;
        }
        max
    }

    /// Money credited to `account_id` less money debited from it, over the
    /// activities of the window.
    pub fn calculate_balance(&self, account_id: &AccountId) -> (r: Money)
        ensures
            r@ == deposits_to(self@, *account_id) - withdrawals_from(self@, *account_id),
            r@ == window_balance(self@, *account_id),
    {
        let mut deposit_balance = Money::of(0);
        let mut withdrawal_balance = Money::of(0);
        let mut k: usize = 0;
        while k < self.activities.len()
            invariant
                k <= self@.len(),
                deposit_balance@ == deposits_to(self@.take(k as int), *account_id),
                withdrawal_balance@ == withdrawals_from(self@.take(k as int), *account_id),
            decreases self@.len() - k,
        {
            let activity = &self.activities[k];
            assert(self@.take(k + 1).drop_last() =~= self@.take(k as int));
            if activity.target_account_id == *account_id {
                deposit_balance = Money::add(&deposit_balance, &activity.money);
            }
            if activity.source_account_id == *account_id {
                withdrawal_balance = Money::add(&withdrawal_balance, &activity.money);
            }
            k = k + 1;
        }
        assert(self@.take(self@.len() as int) =~= self@);
        Money::add(&deposit_balance, &withdrawal_balance.negate())
    }

    /// Appends an activity; nothing is reordered or removed.
    pub fn add_activity(&mut self, activity: Activity)
        ensures
            final(self)@ == old(self)@.push(activity),
    {
        self.activities.push(activity);
    }
}

} // verus!
