//! A payments ledger: applies deposits, withdrawals and the dispute family of
//! transactions to per-client balances.
//!
//! `transaction_manager` holds the engine. What the engine does is defined
//! once, over unbounded integers, in `transaction_manager::ledger`; the
//! engine's functions are proved to follow that definition, and
//! `transaction_manager::laws` proves what holds of it for every input.
//! `csv` turns decoded input rows into the transactions that the engine
//! takes.
//!
//! All amounts are in base units: integers, ten thousand to the unit.

pub mod csv;
pub mod transaction_manager;
