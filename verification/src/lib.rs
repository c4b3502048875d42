//! An in-memory retail-banking ledger: customers, accounts, and the
//! transactions that mutate account balances.
//!
//! Monetary amounts are fixed-point: an `i64` counts cents. Every account
//! balance is provably non-negative and provably equal to the algebraic sum
//! of the effects of the account's transaction history, and a transfer
//! either moves the amount between two distinct accounts or changes nothing.

pub mod account;
pub mod bank;
pub mod bank_tui;
pub mod clock;
pub mod customer;
pub mod errors;
pub mod forms;
pub mod screens;
pub mod textops;
pub mod transaction;
pub mod widgets;
