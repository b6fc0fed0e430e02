//! A ledger engine for a stream of client transactions.
//!
//! Deposits, withdrawals, disputes, resolutions and chargebacks arrive in
//! order, each for one client. The ledger keeps, per client, the available,
//! the held and the total funds in exact decimal arithmetic, and locks an
//! account for good once a chargeback has been applied to it.
//!
//! - [`app`] holds the ledger itself: the accounts, the store of transactions
//!   and the entry point that routes a transaction to the account of its
//!   client.
//! - [`models`] holds the accounts with their rules, the amounts, the
//!   transactions, their reading from the fields of a record, and the store.
//! - [`cli`] finds the name of the input file among the arguments of a run.
//!
//! Every function states what it returns and changes, and is proved to do so.
//! Where the work is done by the crates `fraction` and `clap` or by a function
//! of the standard library, the call stands in a small function of its own
//! whose doc comment says what is believed of the call without proof.

pub mod app;
pub mod cli;
pub mod models;
