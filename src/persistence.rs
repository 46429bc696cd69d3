use crate::account::Account;
use crate::activity::{AccountId, Activity, ActivityId, Timestamp};
use crate::activity_window::ActivityWindow;
use crate::money::Money;
use vstd::prelude::*;

verus! {

/// A stored account row.
#[derive(Clone, Copy, PartialEq, Eq, Structural, Hash, Debug)]
pub struct AccountEntity {
    pub id: Option<i64>,
}

/// A stored activity row.
#[derive(Clone, Copy, PartialEq, Eq, Structural, Hash, Debug)]
pub struct ActivityEntity {
    pub id: Option<i64>,
    pub timestamp: Timestamp,
    pub owner_account_id: i64,
    pub source_account_id: i64,
    pub target_account_id: i64,
    pub amount: i64,
}

/// Why stored rows could not become an account, or an account could not
/// become rows.
#[derive(Clone, Copy, PartialEq, Eq, Structural, Debug)]
pub enum PersistenceError {
    AccountNotFound,
    MissingRowId,
    AmountOutOfRange,
}

/// `e` is the row of `a`: the same fields, the amount as an integer.
pub open spec fn entity_of(e: ActivityEntity, a: Activity) -> bool {
    &&& e.id == match a.id {
        Some(id) => Some(id.0),
        None => None::<i64>,
    }
    &&& e.timestamp == a.timestamp
    &&& e.owner_account_id == a.owner_account_id.0
    &&& e.source_account_id == a.source_account_id.0
    &&& e.target_account_id == a.target_account_id.0
    &&& e.amount == a.money@
}

pub open spec fn fits_i64(amount: int) -> bool {
    i64::MIN <= amount <= i64::MAX
}

/// The activities that have not been stored yet, in order.
pub open spec fn unsaved(activities: Seq<Activity>) -> Seq<Activity>
    decreases activities.len(),
{
    if activities.len() == 0 {
        Seq::empty()
    } else if activities.last().id is None {
        unsaved(activities.drop_last()).push(activities.last())
    } else {
        unsaved(activities.drop_last())
    }
}

pub open spec fn all_rows_have_ids(activities: Seq<ActivityEntity>) -> bool {
    forall|i: int| 0 <= i < activities.len() ==> (#[trigger] activities[i]).id is Some
}

fn map_to_activity_window(activities: Vec<ActivityEntity>) -> (r: ActivityWindow)
    requires
        all_rows_have_ids(activities@),
    ensures
        r@.len() == activities@.len(),
        forall|i: int| 0 <= i < activities@.len() ==> entity_of(activities@[i], #[trigger] r@[i]),
{
    let mut mapped: Vec<Activity> = Vec::new();
    let mut k: usize = 0;
    while k < activities.len()
        invariant
            k <= activities@.len(),
            all_rows_have_ids(activities@),
            mapped@.len() == k,
            forall|i: int| 0 <= i < k ==> entity_of(activities@[i], #[trigger] mapped@[i]),
        decreases activities@.len() - k,
    {
        let ae = activities[k];
        let id = match ae.id {
            Some(id) => id,
            None => 0,
        };
        let activity = Activity::with_id(
            Some(ActivityId(id)),
            AccountId(ae.owner_account_id),
            AccountId(ae.source_account_id),
            AccountId(ae.target_account_id),
            ae.timestamp,
            Money::of(ae.amount as i128),
        );
        mapped.push(activity);
        k = k + 1;
    }
    ActivityWindow::new(mapped)
}

/// The account of a stored row and its stored activities since the window
/// start; the baseline is what was deposited before the window less what was
/// withdrawn before it.
pub fn map_to_account(
    account: AccountEntity,
    activities: Vec<ActivityEntity>,
    withdrawal_balance: i128,
    deposit_balance: i128,
) -> (r: Account)
    requires
        account.id is Some,
        all_rows_have_ids(activities@),
    ensures
        r.id_spec() == Some(AccountId(account.id->0)),
        r.baseline() == deposit_balance - withdrawal_balance,
        r.activities().len() == activities@.len(),
        forall|i: int|
            0 <= i < activities@.len() ==> entity_of(activities@[i], #[trigger] r.activities()[i]),
{
    let baseline_balance = Money::substract(&Money::of(deposit_balance), &Money::of(withdrawal_balance));
    let id = match account.id {
        Some(id) => id,
        None => 0,
    };
    Account::with_id(AccountId(id), baseline_balance, map_to_activity_window(activities))
}

/// Builds an account from what the store returned for it: the account row,
/// if any, its activities since the window start, and the sums of what it
/// withdrew and was deposited before that start (none where it had no
/// such activity).
pub fn assemble_account(
    account: Option<AccountEntity>,
    activities: Vec<ActivityEntity>,
    withdrawal_balance: Option<i128>,
    deposit_balance: Option<i128>,
) -> (r: Result<Account, PersistenceError>)
    ensures
        account is None ==> r == Err::<Account, PersistenceError>(PersistenceError::AccountNotFound),
        account is Some ==> (r == Err::<Account, PersistenceError>(PersistenceError::MissingRowId)
            <==> (account->0.id is None || !all_rows_have_ids(activities@))),
        r is Ok <==> account is Some && account->0.id is Some && all_rows_have_ids(activities@),
        r matches Ok(a) ==> {
            &&& a.id_spec() == Some(AccountId(account->0.id->0))
            &&& a.baseline() == match deposit_balance {
                Some(d) => d as int,
                None => 0,
            } - match withdrawal_balance {
                Some(w) => w as int,
                None => 0,
            }
            &&& a.activities().len() == activities@.len()
            &&& forall|i: int|
                0 <= i < activities@.len() ==> entity_of(activities@[i], #[trigger] a.activities()[i])
        },
{
    let row = match account {
        Some(row) => row,
        None => {
            return Err(PersistenceError::AccountNotFound);
        },
    };
    if row.id.is_none() {
        return Err(PersistenceError::MissingRowId);
    }
    let mut k: usize = 0;
    while k < activities.len()
        invariant
            k <= activities@.len(),
            account == Some(row),
            row.id is Some,
            forall|i: int| 0 <= i < k ==> (#[trigger] activities@[i]).id is Some,
        decreases activities@.len() - k,
    {
        if activities[k].id.is_none() {
            return Err(PersistenceError::MissingRowId);
        }
        k = k + 1;
    }
    let withdrawn: i128 = match withdrawal_balance {
        Some(w) => w,
        None => 0,
    };
    let deposited: i128 = match deposit_balance {
        Some(d) => d,
        None => 0,
    };
    Ok(map_to_account(row, activities, withdrawn, deposited))
}

/// The row of an activity; `None` where its amount does not fit the
/// column's `i64`.
pub fn map_to_activity_entity(activity: &Activity) -> (r: Option<ActivityEntity>)
    ensures
        r is Some <==> fits_i64(activity.money@),
        r matches Some(e) ==> entity_of(e, *activity),
{
    let amount = match activity.money.to_i64() {
        Some(amount) => amount,
        None => {
            return None;
        },
    };
    let id = match activity.id {
        Some(aid) => Some(aid.0),
        None => None,
    };
    Some(
        ActivityEntity {
            id,
            timestamp: activity.timestamp,
            owner_account_id: activity.owner_account_id.0,
            source_account_id: activity.source_account_id.0,
            target_account_id: activity.target_account_id.0,
            amount,
        },
    )
}

/// The rows to insert for an account: one for each activity of its window
/// that has no id yet, in window order. Stored activities are left out.
pub fn unsaved_activity_entities(account: &Account) -> (r: Result<
    Vec<ActivityEntity>,
    PersistenceError,
>)
    ensures
        r is Err <==> exists|i: int|
            0 <= i < account.activities().len() && (#[trigger] account.activities()[i]).id is None
                && !fits_i64(account.activities()[i].money@),
        r is Err ==> r == Err::<Vec<ActivityEntity>, PersistenceError>(
            PersistenceError::AmountOutOfRange,
        ),
        r matches Ok(rows) ==> {
            &&& rows@.len() == unsaved(account.activities()).len()
            &&& forall|i: int|
                0 <= i < rows@.len() ==> entity_of(
                    #[trigger] rows@[i],
                    unsaved(account.activities())[i],
                )
        },
{
    let activities = &account.get_activity_window().activities;
    let ghost all = account.activities();
    let mut rows: Vec<ActivityEntity> = Vec::new();
    let mut k: usize = 0;
    while k < activities.len()
        invariant
            activities@ == all,
            all == account.activities(),
            k <= all.len(),
            forall|i: int|
                0 <= i < k && (#[trigger] all[i]).id is None ==> fits_i64(all[i].money@),
            rows@.len() == unsaved(all.take(k as int)).len(),
            forall|i: int|
                0 <= i < rows@.len() ==> entity_of(#[trigger] rows@[i], unsaved(all.take(k as int))[i]),
        decreases all.len() - k,
    {
        assert(all.take(k + 1).drop_last() =~= all.take(k as int));
        let activity = &activities[k];
        if activity.id.is_none() {
            match map_to_activity_entity(activity) {
                Some(row) => {
                    rows.push(row);
                },
                None => {
                    assert(account.activities()[k as int].id is None && !fits_i64(account.activities()[k as int].money@));
                    return Err(PersistenceError::AmountOutOfRange);
                },
            }
        }
        k = k + 1;
    }
    assert(all.take(all.len() as int) =~= all);
    Ok(rows)
}

} // verus!
