use buckpal::account::Account;
use buckpal::activity::{AccountId, ActivityId, Timestamp};
use buckpal::activity_window::ActivityWindow;
use buckpal::money::Money;
use buckpal::persistence::{
    assemble_account, map_to_account, map_to_activity_entity, unsaved_activity_entities,
    AccountEntity, ActivityEntity, PersistenceError,
};
use buckpal::testdata::{default_account, default_activity};
use chrono::NaiveDate;

fn at(y: i32, m: u32, d: u32, h: u32) -> Timestamp {
    let t = NaiveDate::from_ymd_opt(y, m, d).unwrap().and_hms_opt(h, 0, 0).unwrap();
    Timestamp(t.and_utc().timestamp_micros())
}

fn stored_rows() -> Vec<ActivityEntity> {
    vec![
        ActivityEntity {
            id: Some(5),
            timestamp: at(2019, 8, 9, 9),
            owner_account_id: 1,
            source_account_id: 1,
            target_account_id: 2,
            amount: 1000,
        },
        ActivityEntity {
            id: Some(7),
            timestamp: at(2019, 8, 9, 10),
            owner_account_id: 1,
            source_account_id: 2,
            target_account_id: 1,
            amount: 1000,
        },
    ]
}

#[test]
fn test_loads_account() {
    let account_id = AccountId(1);
    let account = assemble_account(
        Some(AccountEntity { id: Some(account_id.0) }),
        stored_rows(),
        Some(500),
        Some(1000),
    )
    .unwrap();
    assert_eq!(2, account.get_activity_window().activities.len());
    assert_eq!(Money::of(500), account.calculate_balance());
}

#[test]
fn test_updates_activities() {
    let account = default_account()
        .with_baseline_balance(Money::of(555))
        .with_activity_window(ActivityWindow::new(vec![default_activity()
            .with_id(None)
            .with_money(Money::of(1))
            .build()]))
        .build();
    let rows = unsaved_activity_entities(&account).unwrap();
    assert_eq!(1, rows.len());
    assert_eq!(1, rows[0].amount);
}

#[test]
fn loading_a_missing_account_fails() {
    let r = assemble_account(None, vec![], None, None);
    assert_eq!(Some(PersistenceError::AccountNotFound), r.err());
}

#[test]
fn loading_rows_without_ids_fails() {
    let r = assemble_account(Some(AccountEntity { id: None }), vec![], None, None);
    assert_eq!(Some(PersistenceError::MissingRowId), r.err());
    let mut rows = stored_rows();
    rows[1].id = None;
    let r = assemble_account(Some(AccountEntity { id: Some(1) }), rows, None, None);
    assert_eq!(Some(PersistenceError::MissingRowId), r.err());
}

#[test]
fn loading_without_earlier_activity_starts_from_zero() {
    let account =
        assemble_account(Some(AccountEntity { id: Some(1) }), stored_rows(), None, None).unwrap();
    assert_eq!(Money::of(0), account.calculate_balance());
    let account =
        assemble_account(Some(AccountEntity { id: Some(1) }), vec![], Some(30), None).unwrap();
    assert_eq!(Money::of(-30), account.calculate_balance());
}

#[test]
fn mapping_rows_keeps_every_field() {
    let account = map_to_account(AccountEntity { id: Some(1) }, stored_rows(), 500, 1000);
    assert_eq!(Some(AccountId(1)), account.get_id());
    let first = &account.get_activity_window().activities[0];
    assert_eq!(Some(ActivityId(5)), first.id);
    assert_eq!(at(2019, 8, 9, 9), first.timestamp);
    assert_eq!(AccountId(1), first.owner_account_id);
    assert_eq!(AccountId(1), first.source_account_id);
    assert_eq!(AccountId(2), first.target_account_id);
    assert_eq!(Money::of(1000), first.money);
    let back = map_to_activity_entity(first).unwrap();
    assert_eq!(stored_rows()[0], back);
}

#[test]
fn amounts_beyond_the_column_are_refused() {
    let activity = default_activity().with_money(Money::of(i64::MAX as i128 + 1)).build();
    assert_eq!(None, map_to_activity_entity(&activity));
    let account: Account = default_account()
        .with_activity_window(ActivityWindow::new(vec![activity]))
        .build();
    assert_eq!(Some(PersistenceError::AmountOutOfRange), unsaved_activity_entities(&account).err());
}

#[test]
fn stored_activities_are_not_saved_again() {
    let account = default_account()
        .with_activity_window(ActivityWindow::new(vec![
            default_activity().with_id(Some(ActivityId(3))).build(),
            default_activity().with_money(Money::of(4)).build(),
            default_activity().with_id(Some(ActivityId(4))).build(),
            default_activity().with_money(Money::of(6)).build(),
        ]))
        .build();
    let rows = unsaved_activity_entities(&account).unwrap();
    assert_eq!(vec![4, 6], rows.iter().map(|r| r.amount).collect::<Vec<_>>());
    assert!(rows.iter().all(|r| r.id.is_none()));
}
