use crate::activity::AccountId;
use vstd::prelude::*;

verus! {

/// Mutual exclusion per account, provided by the deployment.
pub trait AccountLock {
    fn lock_account(&self, account_id: AccountId);

    fn release_account(&self, account_id: AccountId);
}

/// A lock that excludes nothing: for single-writer deployments and tests.
#[derive(Debug)]
pub struct NoOpAccountLock {}

impl AccountLock for NoOpAccountLock {
    fn lock_account(&self, _account_id: AccountId) {
    }

    fn release_account(&self, _account_id: AccountId) {
    }
}

} // verus!
