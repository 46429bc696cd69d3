use buckpal::activity::{AccountId, Timestamp};
use buckpal::activity_window::ActivityWindow;
use buckpal::money::Money;
use buckpal::testdata::default_activity;
use chrono::NaiveDate;

fn at(y: i32, m: u32, d: u32) -> Timestamp {
    let t = NaiveDate::from_ymd_opt(y, m, d).unwrap().and_hms_opt(0, 0, 0).unwrap();
    Timestamp(t.and_utc().timestamp_micros())
}

fn start_date() -> Timestamp {
    at(2019, 8, 3)
}

fn in_between_date() -> Timestamp {
    at(2019, 8, 4)
}

fn end_date() -> Timestamp {
    at(2019, 8, 5)
}

#[test]
fn activity_window_test_calculates_start_timestamp() {
    let window = ActivityWindow::new(vec![
        default_activity().with_timestamp(start_date()).build(),
        default_activity().with_timestamp(in_between_date()).build(),
        default_activity().with_timestamp(end_date()).build(),
    ]);
    assert_eq!(start_date(), window.get_start_timestamp());
}

#[test]
fn activity_window_test_calculates_end_timestamp() {
    let window = ActivityWindow::new(vec![
        default_activity().with_timestamp(start_date()).build(),
        default_activity().with_timestamp(in_between_date()).build(),
        default_activity().with_timestamp(end_date()).build(),
    ]);
    assert_eq!(end_date(), window.get_end_timestamp());
}

#[test]
fn activity_window_test_calculates_balance() {
    let account1 = AccountId(1);
    let account2 = AccountId(2);
    let window = ActivityWindow::new(vec![
        default_activity()
            .with_source_account(account1)
            .with_target_account(account2)
            .with_money(Money::of(999))
            .build(),
        default_activity()
            .with_source_account(account1)
            .with_target_account(account2)
            .with_money(Money::of(1))
            .build(),
        default_activity()
            .with_source_account(account2)
            .with_target_account(account1)
            .with_money(Money::of(500))
            .build(),
    ]);
    assert_eq!(Money::of(-500), window.calculate_balance(&account1));
    assert_eq!(Money::of(500), window.calculate_balance(&account2));
}

#[test]
fn window_timestamps_ignore_order() {
    let window = ActivityWindow::new(vec![
        default_activity().with_timestamp(in_between_date()).build(),
        default_activity().with_timestamp(end_date()).build(),
        default_activity().with_timestamp(start_date()).build(),
    ]);
    assert_eq!(start_date(), window.get_start_timestamp());
    assert_eq!(end_date(), window.get_end_timestamp());
}

#[test]
fn empty_window_has_zero_balance() {
    let window = ActivityWindow::new(vec![]);
    assert_eq!(Money::of(0), window.calculate_balance(&AccountId(1)));
}

#[test]
fn window_balance_counts_self_transfer_both_ways() {
    let id = AccountId(7);
    let mut window = ActivityWindow::new(vec![]);
    window.add_activity(
        default_activity()
            .with_source_account(id)
            .with_target_account(id)
            .with_money(Money::of(40))
            .build(),
    );
    window.add_activity(
        default_activity()
            .with_source_account(AccountId(8))
            .with_target_account(id)
            .with_money(Money::of(2))
            .build(),
    );
    assert_eq!(2, window.activities.len());
    assert_eq!(Money::of(2), window.calculate_balance(&id));
    assert_eq!(Money::of(-2), window.calculate_balance(&AccountId(8)));
    assert_eq!(Money::of(0), window.calculate_balance(&AccountId(9)));
}
