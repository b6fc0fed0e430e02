//! The data the ledger works on.

pub mod account;
pub mod amount;
pub mod arithmetic;
pub mod commands;
pub mod transaction;
pub mod transactions;
