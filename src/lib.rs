//! Money-transfer domain: accounts whose balance is a baseline plus a window of
//! recent activities, and the decisions of a transfer between two accounts.

pub mod money;
pub mod activity;
pub mod activity_window;
pub mod account;
pub mod account_lock;
pub mod send_money;
pub mod persistence;
pub mod testdata;
