//! The store of the deposits and withdrawals seen so far, by identifier.

use crate::models::transaction::{Transaction, TransactionID};
use std::collections::HashMap;
use vstd::prelude::*;

verus! {

broadcast use vstd::std_specs::hash::group_hash_axioms;

/// Transactions by identifier. A later transaction with the same identifier
/// replaces the earlier one.
#[derive(Debug, Clone)]
pub struct Transactions {
    pub store: HashMap<TransactionID, Transaction>,
}

/// Finds a stored transaction with `HashMap::get_mut`, which gives the value
/// under the key to be changed in place, and `None`, with the map as it was,
/// where the key is absent.
#[verifier::external_body]
fn stored_mut(store: &mut HashMap<TransactionID, Transaction>, txid: TransactionID) -> (found:
    Option<&mut Transaction>)
    ensures
        match found {
            Some(transaction) => old(store)@.contains_key(txid) && *transaction == old(
                store,
            )@[txid] && final(store)@ == old(store)@.insert(txid, *final(transaction)),
            None => !old(store)@.contains_key(txid) && final(store)@ == old(store)@,
        },
{
    store.get_mut(&txid)
}

impl View for Transactions {
    type V = Map<TransactionID, Transaction>;

    open spec fn view(&self) -> Map<TransactionID, Transaction> {
        self.store@
    }
}

impl Transactions {
    /// Every stored transaction is valid.
    pub open spec fn wf(self) -> bool {
        forall|id: TransactionID| #[trigger] self@.contains_key(id) ==> self@[id].wf()
    }

    /// An empty store.
    pub fn new() -> (made: Self)
        ensures
            made@ == Map::<TransactionID, Transaction>::empty(),
            made.wf(),
    {
        Self { store: HashMap::new() }
    }

    /// Stores the transaction under its identifier, in place of any earlier
    /// one, and returns the identifier of the transaction it replaced, if
    /// there was one.
    pub fn set(&mut self, transaction: Transaction) -> (replaced: Option<TransactionID>)
        ensures
            final(self)@ == old(self)@.insert(transaction.id, transaction),
            replaced == if old(self)@.contains_key(transaction.id) {
                Some(old(self)@[transaction.id].id)
            } else {
                None
            },
            old(self).wf() && transaction.wf() ==> final(self).wf(),
    {
        let txid = transaction.id;
        match self.store.insert(txid, transaction) {
            Some(previous) => Some(previous.id),
            None => None,
        }
    }

    /// The transaction stored under the identifier, if any.
    pub fn get(&self, txid: TransactionID) -> (found: Option<&Transaction>)
        ensures
            match found {
                Some(transaction) => self@.contains_key(txid) && *transaction == self@[txid],
                None => !self@.contains_key(txid),
            },
    {
        self.store.get(&txid)
    }

    /// The transaction stored under the identifier, if any, to be changed in
    /// place.
    pub fn get_mut(&mut self, txid: TransactionID) -> (found: Option<&mut Transaction>)
        ensures
            match found {
                Some(transaction) => old(self)@.contains_key(txid) && *transaction == old(
                    self,
                )@[txid] && final(self)@ == old(self)@.insert(txid, *final(transaction)),
                None => !old(self)@.contains_key(txid) && final(self)@ == old(self)@,
            },
    {
        stored_mut(&mut self.store, txid)
    }

    /// The number of transactions stored.
    pub fn size(&self) -> (count: usize)
        ensures
            count == self@.len(),
    {
        self.store.len()
    }

    /// Empties the store.
    pub fn reset(&mut self)
        ensures
            final(self)@ == Map::<TransactionID, Transaction>::empty(),
            final(self).wf(),
    {
        self.store.clear();
    }
}

} // verus!
