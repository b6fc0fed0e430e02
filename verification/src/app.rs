//! The ledger: the accounts of all clients and the store of transactions,
//! and the one entry point through which transactions reach them.

use crate::models::account::{Account, Balances, RejectedTransaction, Result};
use crate::models::amount::Amount;
use crate::models::transaction::{ClientID, Transaction, TransactionID, TransactionType};
use crate::models::transactions::Transactions;
use std::collections::HashMap;
use vstd::prelude::*;

verus! {

broadcast use vstd::std_specs::hash::group_hash_axioms;

/// The accounts, by client.
pub type Accounts = HashMap<ClientID, Account>;

/// The ledger.
#[derive(Debug, Clone)]
pub struct App {
    pub accounts: Accounts,
    transactions: Transactions,
}

/// The account of a client among `accounts`: the one kept there or, where
/// there is none yet, a new one.
pub open spec fn account_in(accounts: Map<ClientID, Account>, client_id: ClientID) -> Account {
    if accounts.contains_key(client_id) {
        accounts[client_id]
    } else {
        Account::opened(client_id)
    }
}

/// Every account is valid and kept under the client it belongs to.
pub open spec fn accounts_wf(accounts: Map<ClientID, Account>) -> bool {
    forall|client_id: ClientID| #[trigger]
        accounts.contains_key(client_id) ==> accounts[client_id].wf()
            && accounts[client_id].client() == client_id
}

impl App {
    /// The accounts that the ledger keeps.
    pub closed spec fn accounts(self) -> Map<ClientID, Account> {
        self.accounts@
    }

    /// The transactions that the ledger has stored.
    pub closed spec fn store(self) -> Map<TransactionID, Transaction> {
        self.transactions@
    }

    /// The account of a client: the one kept or, where there is none yet, a
    /// new one.
    pub open spec fn account_of(self, client_id: ClientID) -> Account {
        account_in(self.accounts(), client_id)
    }

    /// A valid ledger keeps valid accounts, each under its client, and has
    /// stored valid deposits and withdrawals only.
    pub open spec fn wf(self) -> bool {
        &&& accounts_wf(self.accounts())
        &&& forall|id: TransactionID| #[trigger]
            self.store().contains_key(id) ==> {
                &&& self.store()[id].wf()
                &&& (self.store()[id].kind == TransactionType::Deposit || self.store()[id].kind
                    == TransactionType::Withdrawal)
            }
    }

    /// A ledger without accounts or transactions.
    pub fn new() -> (app: Self)
        ensures
            app.wf(),
            app.accounts() == Map::<ClientID, Account>::empty(),
            app.store() == Map::<TransactionID, Transaction>::empty(),
    {
        Self { accounts: HashMap::new(), transactions: Transactions::new() }
    }

    /// Why the ledger does not apply a transaction, if it does not: the reason
    /// that the account of its client gives, against the store as it stands
    /// when the account is asked.
    pub open spec fn rejection(self, transaction: Transaction) -> Option<RejectedTransaction> {
        let account = self.account_of(transaction.client_id);
        match transaction.kind {
            TransactionType::Deposit => account@.deposit_rejection(transaction),
            TransactionType::Withdrawal => account@.withdrawal_rejection(transaction),
            TransactionType::Dispute => account@.dispute_rejection(transaction, self.store()),
            TransactionType::Resolve => account@.resolve_rejection(transaction, self.store()),
            TransactionType::Chargeback => account@.chargeback_rejection(
                transaction,
                self.store(),
            ),
        }
    }

    /// Whether the sums and differences that a transaction needs can be
    /// formed on the account of its client.
    pub open spec fn fits(self, transaction: Transaction) -> bool {
        let account = self.account_of(transaction.client_id);
        match transaction.kind {
            TransactionType::Deposit => account.deposit_fits(transaction),
            TransactionType::Withdrawal => account.withdrawal_fits(transaction),
            TransactionType::Dispute => account.dispute_fits(transaction, self.store()),
            TransactionType::Resolve => account.resolve_fits(transaction, self.store()),
            TransactionType::Chargeback => account.chargeback_fits(transaction, self.store()),
        }
    }

    /// Tests whether the sums and differences that a transaction needs can
    /// be formed, as [`App::process`] asks.
    pub fn can_process(&self, transaction: &Transaction) -> (fits: bool)
        requires
            self.wf(),
            transaction.wf(),
        ensures
            fits == self.fits(*transaction),
    {
        proof {
            Account::lemma_opened(transaction.client_id);
        }
        let account = match self.accounts.get(&transaction.client_id) {
            Some(kept) => *kept,
            None => Account::new(transaction.client_id),
        };
        match transaction.kind {
            TransactionType::Deposit => account.can_deposit(transaction),
            TransactionType::Withdrawal => account.can_withdraw(transaction),
            TransactionType::Dispute => account.can_dispute(transaction, &self.transactions),
            TransactionType::Resolve => account.can_resolve(transaction, &self.transactions),
            TransactionType::Chargeback => account.can_charge_back(
                transaction,
                &self.transactions,
            ),
        }
    }

    /// The amount that a transaction moves: its own for a deposit or a
    /// withdrawal, else that of the stored transaction it refers to.
    pub open spec fn moved(self, transaction: Transaction) -> real {
        match transaction.kind {
            TransactionType::Deposit | TransactionType::Withdrawal => {
                transaction.amount.unwrap().value()
            },
            _ => self.store()[transaction.id].amount.unwrap().value(),
        }
    }

    /// The balances of the client's account once the transaction is applied.
    pub open spec fn applied(self, transaction: Transaction) -> Balances {
        let before = self.account_of(transaction.client_id)@;
        let amount = self.moved(transaction);
        match transaction.kind {
            TransactionType::Deposit => before.deposited(amount),
            TransactionType::Withdrawal => before.withdrawn(amount),
            TransactionType::Dispute => before.disputed(amount),
            TransactionType::Resolve => before.resolved(amount),
            TransactionType::Chargeback => before.charged_back(amount),
        }
    }

    /// The store once the ledger has taken a transaction: a deposit or a
    /// withdrawal is stored under its identifier, applied or not; any other
    /// transaction leaves the store as it is.
    pub open spec fn stored(self, transaction: Transaction) -> Map<TransactionID, Transaction> {
        match transaction.kind {
            TransactionType::Deposit | TransactionType::Withdrawal => self.store().insert(
                transaction.id,
                transaction,
            ),
            _ => self.store(),
        }
    }

    /// Takes one transaction. A deposit or a withdrawal is stored first. Then
    /// the account of the client, made where there is none yet, applies the
    /// transaction or rejects it; a rejection leaves that account as it was.
    pub fn process(&mut self, transaction: Transaction) -> (result: Result<Transaction>)
        requires
            old(self).wf(),
            transaction.wf(),
            old(self).fits(transaction),
        ensures
            final(self).wf(),
            old(self).taken(*final(self), transaction, result),
    {
        if transaction.kind == TransactionType::Deposit || transaction.kind
            == TransactionType::Withdrawal {
            self.transactions.set(transaction);
        }
        proof {
            Account::lemma_opened(transaction.client_id);
        }
        let account = Self::get_or_create_account(&mut self.accounts, transaction.client_id);
        match transaction.kind {
            TransactionType::Deposit => account.process_deposit(&transaction),
            TransactionType::Withdrawal => account.process_withdrawal(&transaction),
            TransactionType::Dispute => account.process_dispute(
                &transaction,
                &mut self.transactions,
            ),
            TransactionType::Resolve => account.process_resolve(
                &transaction,
                &mut self.transactions,
            ),
            TransactionType::Chargeback => account.process_chargeback(
                &transaction,
                &mut self.transactions,
            ),
        }
    }

    /// Reads a transaction from the fields of a record and takes it. A record
    /// that stands for no transaction is rejected with the reason, and the
    /// ledger stays as it is.
    pub fn process_record(&mut self, record: Vec<&str>) -> (result: Result<Transaction>)
        requires
            old(self).wf(),
            Transaction::of_record(record@) matches Ok(transaction) ==> old(self).fits(
                transaction,
            ),
        ensures
            final(self).wf(),
            match Transaction::of_record(record@) {
                Err(rejection) => result == Err::<Transaction, RejectedTransaction>(rejection)
                    && *final(self) == *old(self),
                Ok(transaction) => old(self).taken(*final(self), transaction, result),
            },
    {
        match Transaction::from_record(record) {
            Err(rejection) => Err(rejection),
            Ok(transaction) => self.process(transaction),
        }
    }

    /// Takes one transaction where the sums and differences that it needs
    /// can be formed, as [`App::process`] does. Where they cannot, the ledger
    /// stays as it is and the result is `None`.
    pub fn try_process(&mut self, transaction: Transaction) -> (result: Option<
        Result<Transaction>,
    >)
        requires
            old(self).wf(),
            transaction.wf(),
        ensures
            final(self).wf(),
            match result {
                Some(outcome) => old(self).fits(transaction) && old(self).taken(
                    *final(self),
                    transaction,
                    outcome,
                ),
                None => !old(self).fits(transaction) && *final(self) == *old(self),
            },
    {
        if self.can_process(&transaction) {
            Some(self.process(transaction))
        } else {
            None
        }
    }

    /// Reads a transaction from the fields of a record and takes it where the
    /// sums and differences that it needs can be formed, as
    /// [`App::process_record`] does. Where they cannot, the ledger stays as it
    /// is and the result is `None`.
    pub fn try_process_record(&mut self, record: Vec<&str>) -> (result: Option<
        Result<Transaction>,
    >)
        requires
            old(self).wf(),
        ensures
            final(self).wf(),
            match Transaction::of_record(record@) {
                Err(rejection) => result == Some(
                    Err::<Transaction, RejectedTransaction>(rejection),
                ) && *final(self) == *old(self),
                Ok(transaction) => match result {
                    Some(outcome) => old(self).fits(transaction) && old(self).taken(
                        *final(self),
                        transaction,
                        outcome,
                    ),
                    None => !old(self).fits(transaction) && *final(self) == *old(self),
                },
            },
    {
        match Transaction::from_record(record) {
            Err(rejection) => Some(Err(rejection)),
            Ok(transaction) => self.try_process(transaction),
        }
    }

    /// What [`App::process`] does to the ledger and returns.
    pub open spec fn taken(
        self,
        after: App,
        transaction: Transaction,
        result: Result<Transaction>,
    ) -> bool {
        &&& after.store() == self.stored(transaction)
        &&& after.accounts() == self.accounts().insert(
            transaction.client_id,
            after.account_of(transaction.client_id),
        )
        &&& after.account_of(transaction.client_id).client() == transaction.client_id
        &&& match result {
            Ok(taken) => {
                &&& self.rejection(transaction) is None
                &&& taken == transaction
                &&& after.account_of(transaction.client_id)@ == self.applied(transaction)
            },
            Err(rejection) => {
                &&& self.rejection(transaction) == Some(rejection)
                &&& after.account_of(transaction.client_id) == self.account_of(
                    transaction.client_id,
                )
            },
        }
    }

    /// In a valid ledger the available and the held funds of every client add
    /// up to the total, whether the client has an account yet or not.
    pub proof fn lemma_every_account_adds_up(self, client_id: ClientID)
        requires
            self.wf(),
        ensures
            self.account_of(client_id).wf(),
            self.account_of(client_id)@.adds_up(),
    {
        Account::lemma_opened(client_id);
    }

    /// A client that the ledger has no account for is looked up as having no
    /// funds and an account that is not locked.
    pub proof fn lemma_unknown_client_has_nothing(self, client_id: ClientID)
        requires
            !self.accounts().contains_key(client_id),
        ensures
            self.account_of(client_id)@ == (Balances {
                client_id,
                available: 0real,
                held: 0real,
                total: 0real,
                locked: false,
            }),
    {
        Account::lemma_opened(client_id);
    }

    /// Once the account of a client is locked, the ledger rejects every
    /// transaction of that client, because the account is locked.
    pub proof fn lemma_locked_client_is_rejected(self, transaction: Transaction)
        requires
            self.account_of(transaction.client_id)@.locked,
        ensures
            self.rejection(transaction) == Some(RejectedTransaction::AccountLocked),
    {
        self.account_of(transaction.client_id)@.lemma_locked_rejects_all(
            transaction,
            self.store(),
        );
    }

    /// Where the ledger has applied a dispute, the resolution of the same
    /// transaction for the same client, once applied, gives the client the
    /// balances from before the dispute; the total is the same all along.
    pub proof fn lemma_dispute_then_resolve(
        self,
        disputed: App,
        dispute: Transaction,
        resolve: Transaction,
    )
        requires
            dispute.kind == TransactionType::Dispute,
            resolve.kind == TransactionType::Resolve,
            resolve.client_id == dispute.client_id,
            resolve.id == dispute.id,
            self.taken(disputed, dispute, Ok(dispute)),
        ensures
            disputed.applied(resolve) == self.account_of(dispute.client_id)@,
            disputed.account_of(dispute.client_id)@.total == self.account_of(
                dispute.client_id,
            )@.total,
            self.account_of(dispute.client_id)@.held >= 0real ==> disputed.rejection(resolve)
                is None,
    {
        let amount = self.store()[dispute.id].amount.unwrap().value();
        self.account_of(dispute.client_id)@.lemma_dispute_then_resolve(amount);
    }

    /// Where the ledger has applied a dispute, the chargeback of the same
    /// transaction for the same client, once applied, has taken the amount
    /// from the held funds and from the total and locked the account, and the
    /// ledger rejects whatever comes for that client afterwards.
    pub proof fn lemma_dispute_then_chargeback(
        self,
        disputed: App,
        charged: App,
        dispute: Transaction,
        chargeback: Transaction,
        later: Transaction,
    )
        requires
            dispute.kind == TransactionType::Dispute,
            chargeback.kind == TransactionType::Chargeback,
            chargeback.client_id == dispute.client_id,
            chargeback.id == dispute.id,
            later.client_id == dispute.client_id,
            self.taken(disputed, dispute, Ok(dispute)),
            disputed.taken(charged, chargeback, Ok(chargeback)),
        ensures
            charged.account_of(dispute.client_id)@.held == disputed.account_of(
                dispute.client_id,
            )@.held - disputed.moved(chargeback),
            charged.account_of(dispute.client_id)@.total == disputed.account_of(
                dispute.client_id,
            )@.total - disputed.moved(chargeback),
            disputed.moved(chargeback) == self.moved(dispute),
            charged.account_of(dispute.client_id)@.locked,
            charged.rejection(later) == Some(RejectedTransaction::AccountLocked),
    {
        charged.lemma_locked_client_is_rejected(later);
    }

    /// The ledger after a look at the account of a client: the account is
    /// there, made where there was none, and nothing else has changed.
    pub open spec fn looked_up(self, after: App, client_id: ClientID) -> bool {
        &&& after.accounts() == self.accounts().insert(client_id, self.account_of(client_id))
        &&& after.store() == self.store()
    }

    /// The available funds of a client. A client without account gets one.
    pub fn get_available_balance(&mut self, client_id: ClientID) -> (amount: Amount)
        ensures
            amount == old(self).account_of(client_id).available(),
            old(self).looked_up(*final(self), client_id),
            old(self).wf() ==> final(self).wf(),
    {
        proof {
            Account::lemma_opened(client_id);
        }
        let account = Self::get_or_create_account(&mut self.accounts, client_id);
        account.available_balance()
    }

    /// The held funds of a client. A client without account gets one.
    pub fn get_held_balance(&mut self, client_id: ClientID) -> (amount: Amount)
        ensures
            amount == old(self).account_of(client_id).held(),
            old(self).looked_up(*final(self), client_id),
            old(self).wf() ==> final(self).wf(),
    {
        proof {
            Account::lemma_opened(client_id);
        }
        let account = Self::get_or_create_account(&mut self.accounts, client_id);
        account.held_balance()
    }

    /// The total funds of a client. A client without account gets one.
    pub fn get_total_balance(&mut self, client_id: ClientID) -> (amount: Amount)
        ensures
            amount == old(self).account_of(client_id).total(),
            old(self).looked_up(*final(self), client_id),
            old(self).wf() ==> final(self).wf(),
    {
        proof {
            Account::lemma_opened(client_id);
        }
        let account = Self::get_or_create_account(&mut self.accounts, client_id);
        account.total_balance()
    }

    /// Whether the account of a client is locked. A client without account
    /// gets one.
    pub fn is_locked(&mut self, client_id: ClientID) -> (locked: bool)
        ensures
            locked == old(self).account_of(client_id).locked(),
            old(self).looked_up(*final(self), client_id),
            old(self).wf() ==> final(self).wf(),
    {
        proof {
            Account::lemma_opened(client_id);
        }
        let account = Self::get_or_create_account(&mut self.accounts, client_id);
        account.is_locked()
    }

    /// The number of transactions stored.
    pub fn transactions_size(&self) -> (count: usize)
        ensures
            count == self.store().len(),
    {
        self.transactions.size()
    }

    /// The account of a client, if the ledger keeps one.
    pub fn get_account(&self, client_id: ClientID) -> (found: Result<&Account>)
        ensures
            match found {
                Ok(account) => self.accounts().contains_key(client_id) && *account
                    == self.accounts()[client_id],
                Err(rejection) => !self.accounts().contains_key(client_id) && rejection
                    == RejectedTransaction::IDNotFound,
            },
    {
        match self.accounts.get(&client_id) {
            Some(account) => Ok(account),
            None => Err(RejectedTransaction::IDNotFound),
        }
    }

    /// The account of the client among `accounts`, made first where there is
    /// none yet: a look at an unknown client opens an account without funds.
    pub fn get_or_create_account(accounts: &mut Accounts, client_id: ClientID) -> (account:
        &mut Account)
        ensures
            *account == account_in(old(accounts)@, client_id),
            final(accounts)@ == old(accounts)@.insert(client_id, *final(account)),
            accounts_wf(old(accounts)@) ==> account.wf() && account.client() == client_id,
    {
        proof {
            Account::lemma_opened(client_id);
        }
        accounts.entry(client_id).or_insert(Account::new(client_id))
    }
}

} // verus!
