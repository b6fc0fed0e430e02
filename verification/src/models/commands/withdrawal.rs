//! The withdrawal command.

use vstd::prelude::*;

verus! {

/// A withdrawal asked for more than the account had available.
#[derive(Debug, Clone)]
pub struct InsufficientFoundsForWithdrawal;

/// A withdrawal from an account.
#[derive(Debug, Clone)]
pub struct Withdrawal {}

} // verus!
