use buckpal::account::Account;
use buckpal::activity::{AccountId, ActivityId, Timestamp};
use buckpal::activity_window::ActivityWindow;
use buckpal::money::Money;
use buckpal::persistence::unsaved_activity_entities;
use buckpal::send_money::{
    baseline_date_at, MoneyTransfer, MoneyTransferProperties, SendMoneyCommand, TransferAction,
    TransferError, MICROS_PER_DAY,
};
use buckpal::testdata::{default_account, default_activity};

fn stored_account(id: i64, baseline: i128) -> Account {
    default_account()
        .with_account_id(AccountId(id))
        .with_baseline_balance(Money::of(baseline))
        .with_activity_window(ActivityWindow::new(vec![default_activity()
            .with_id(Some(ActivityId(1)))
            .with_source_account(AccountId(1))
            .with_target_account(AccountId(id))
            .with_money(Money::of(10))
            .build()]))
        .build()
}

fn run(transfer: &mut MoneyTransfer) -> (bool, Vec<TransferAction>) {
    let mut actions = Vec::new();
    loop {
        let action = transfer.next_action();
        actions.push(action);
        if let TransferAction::Finish(success) = action {
            return (success, actions);
        }
        assert!(actions.len() < 20);
    }
}

#[test]
fn test_transaction_succeeds() {
    let command = SendMoneyCommand::new(AccountId(41), AccountId(42), Money::of(500));
    let mut transfer =
        MoneyTransfer::new(command, stored_account(41, 999), stored_account(42, 0)).unwrap();
    let (success, actions) = run(&mut transfer);
    assert!(success);
    let locks = actions.iter().filter(|a| matches!(a, TransferAction::LockAccount(_))).count();
    let releases = actions.iter().filter(|a| matches!(a, TransferAction::ReleaseAccount(_))).count();
    assert_eq!(2, locks);
    assert_eq!(2, releases);
}

#[test]
fn test_given_withdrawal_fails_then_only_source_account_is_locked_and_released() {
    let command = SendMoneyCommand::new(AccountId(41), AccountId(42), Money::of(300));
    let mut transfer =
        MoneyTransfer::new(command, stored_account(41, 0), stored_account(42, 0)).unwrap();
    let (success, actions) = run(&mut transfer);
    assert!(!success);
    assert_eq!(
        vec![
            TransferAction::LockAccount(AccountId(41)),
            TransferAction::ReleaseAccount(AccountId(41)),
            TransferAction::Finish(false),
        ],
        actions
    );
    assert_eq!(1, transfer.source_account().get_activity_window().activities.len());
    assert_eq!(1, transfer.target_account().get_activity_window().activities.len());
}

#[test]
fn transfer_actions_in_order_and_balances_move() {
    let command = SendMoneyCommand::new(AccountId(41), AccountId(42), Money::of(500));
    let mut transfer =
        MoneyTransfer::new(command, stored_account(41, 990), stored_account(42, 5)).unwrap();
    let (success, actions) = run(&mut transfer);
    assert!(success);
    assert_eq!(
        vec![
            TransferAction::LockAccount(AccountId(41)),
            TransferAction::LockAccount(AccountId(42)),
            TransferAction::UpdateSourceAccount,
            TransferAction::UpdateTargetAccount,
            TransferAction::ReleaseAccount(AccountId(41)),
            TransferAction::ReleaseAccount(AccountId(42)),
            TransferAction::Finish(true),
        ],
        actions
    );
    assert_eq!(Money::of(500), transfer.source_account().calculate_balance());
    assert_eq!(Money::of(515), transfer.target_account().calculate_balance());
    // asking again after the end repeats the outcome
    assert_eq!(TransferAction::Finish(true), transfer.next_action());
}

#[test]
fn transfer_stores_only_the_new_activities() {
    let command = SendMoneyCommand::new(AccountId(41), AccountId(42), Money::of(500));
    let mut transfer =
        MoneyTransfer::new(command, stored_account(41, 1000), stored_account(42, 0)).unwrap();
    let mut updates = 0;
    loop {
        match transfer.next_action() {
            TransferAction::UpdateSourceAccount => {
                updates += 1;
                let rows = unsaved_activity_entities(transfer.source_account()).unwrap();
                assert_eq!(1, rows.len());
                assert_eq!(None, rows[0].id);
                assert_eq!(41, rows[0].source_account_id);
                assert_eq!(42, rows[0].target_account_id);
                assert_eq!(41, rows[0].owner_account_id);
                assert_eq!(500, rows[0].amount);
            }
            TransferAction::UpdateTargetAccount => {
                updates += 1;
                let rows = unsaved_activity_entities(transfer.target_account()).unwrap();
                assert_eq!(1, rows.len());
                assert_eq!(42, rows[0].owner_account_id);
                assert_eq!(500, rows[0].amount);
            }
            TransferAction::Finish(success) => {
                assert!(success);
                break;
            }
            _ => {}
        }
    }
    assert_eq!(2, updates);
}

#[test]
fn transfer_needs_account_ids() {
    let without = Account::without_id(Money::of(100), ActivityWindow::new(vec![]));
    let command = SendMoneyCommand::new(AccountId(41), AccountId(42), Money::of(5));
    let r = MoneyTransfer::new(command, without, stored_account(42, 0));
    assert_eq!(Some(TransferError::MissingSourceAccountId), r.err());

    let without = Account::without_id(Money::of(100), ActivityWindow::new(vec![]));
    let command = SendMoneyCommand::new(AccountId(41), AccountId(42), Money::of(5));
    let r = MoneyTransfer::new(command, stored_account(41, 0), without);
    assert_eq!(Some(TransferError::MissingTargetAccountId), r.err());
}

#[test]
fn threshold_is_checked() {
    let properties = MoneyTransferProperties::new(Some(Money::of(1000)));
    let at_limit = SendMoneyCommand::new(AccountId(1), AccountId(2), Money::of(1000));
    assert_eq!(Ok(()), properties.check_threshold(&at_limit));
    let over = SendMoneyCommand::new(AccountId(1), AccountId(2), Money::of(1001));
    assert_eq!(Err(TransferError::ThresholdExceeded), properties.check_threshold(&over));
}

#[test]
fn default_threshold_is_one_million() {
    let properties = MoneyTransferProperties::new(None);
    assert_eq!(Money::of(1_000_000), properties.maximum_transfer_threshold);
    let over = SendMoneyCommand::new(AccountId(1), AccountId(2), Money::of(1_000_001));
    assert_eq!(Err(TransferError::ThresholdExceeded), properties.check_threshold(&over));
}

#[test]
fn baseline_date_is_ten_days_earlier() {
    let now = Timestamp(1_565_000_000_000_000);
    assert_eq!(Some(Timestamp(1_565_000_000_000_000 - 10 * MICROS_PER_DAY)), baseline_date_at(now));
    assert_eq!(None, baseline_date_at(Timestamp(i64::MIN + 5)));
}
