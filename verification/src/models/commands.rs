//! Commands on an account.

pub mod withdrawal;
