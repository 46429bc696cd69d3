use crate::money::Money;
use vstd::prelude::*;

verus! {

/// Identifier of an account.
#[derive(Clone, Copy, PartialEq, Eq, Structural, Hash, Debug)]
pub struct AccountId(pub i64);

/// Identifier of an activity, assigned when it is stored.
#[derive(Clone, Copy, PartialEq, Eq, Structural, Hash, Debug)]
pub struct ActivityId(pub i64);

/// A wall-clock instant without time zone, in microseconds since
/// 1970-01-01 00:00:00.
#[derive(Clone, Copy, PartialEq, Eq, Structural, Hash, Debug)]
pub struct Timestamp(pub i64);

/// Relies on `chrono::Local::now`: the current local time, read as microseconds
/// of the naive clock. Nothing is known of the value.
#[verifier::external_body]
pub(crate) fn current_timestamp() -> (r: Timestamp) {
    Timestamp(chrono::Local::now().naive_local().and_utc().timestamp_micros())
}

/// A movement of money from a source account to a target account, recorded
/// in the activity window of its owner. `id` is `None` until it is stored.
#[derive(Debug)]
pub struct Activity {
    pub id: Option<ActivityId>,
    pub owner_account_id: AccountId,
    pub source_account_id: AccountId,
    pub target_account_id: AccountId,
    pub timestamp: Timestamp,
    pub money: Money,
}

impl Activity {
    /// An activity that has not been stored yet.
    pub fn new(
        owner_account_id: AccountId,
        source_account_id: AccountId,
        target_account_id: AccountId,
        timestamp: Timestamp,
        money: Money,
    ) -> (r: Activity)
        ensures
            r == (Activity {
                id: None,
                owner_account_id,
                source_account_id,
                target_account_id,
                timestamp,
                money,
            }),
    {
        Activity::with_id(None, owner_account_id, source_account_id, target_account_id, timestamp, money)
    }

    pub fn with_id(
        id: Option<ActivityId>,
        owner_account_id: AccountId,
        source_account_id: AccountId,
        target_account_id: AccountId,
        timestamp: Timestamp,
        money: Money,
    ) -> (r: Activity)
        ensures
            r == (Activity { id, owner_account_id, source_account_id, target_account_id, timestamp, money }),
    {
        Activity { id, owner_account_id, source_account_id, target_account_id, timestamp, money }
    }
}

} // verus!
