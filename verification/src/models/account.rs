//! Accounts: the funds of one client, and the rules by which transactions
//! change them.

use crate::models::amount::Amount;
use crate::models::arithmetic::{pow10, ratio};
use crate::models::transaction::{ClientID, Transaction, TransactionID};
use crate::models::transactions::Transactions;
use vstd::prelude::*;

verus! {

/// Why a transaction was not applied.
#[derive(Debug, Clone, Copy, PartialEq, Eq, Structural)]
pub enum RejectedTransaction {
    InvalidType,
    InsufficientFunds,
    IDNotFound,
    InconsistentWithValueHeld,
    InvalidInput,
    TargetTransactionAmountMissing,
    AccountLocked,
}

/// The result of applying a transaction.
pub type Result<T> = std::result::Result<T, RejectedTransaction>;

/// The funds of one client. Once locked, an account takes no transaction.
#[derive(Debug, Clone, Copy)]
pub struct Account {
    pub client_id: ClientID,
    available: Amount,
    held: Amount,
    total: Amount,
    locked: bool,
}

/// An account as numbers: what its three balances stand for.
pub struct Balances {
    pub client_id: ClientID,
    pub available: real,
    pub held: real,
    pub total: real,
    pub locked: bool,
}

impl Balances {
    /// The balances after a deposit of `amount`.
    pub open spec fn deposited(self, amount: real) -> Balances {
        Balances { available: self.available + amount, total: self.total + amount, ..self }
    }

    /// The balances after a withdrawal of `amount`.
    pub open spec fn withdrawn(self, amount: real) -> Balances {
        Balances { available: self.available - amount, total: self.total - amount, ..self }
    }

    /// The balances after a dispute over `amount`.
    pub open spec fn disputed(self, amount: real) -> Balances {
        Balances { available: self.available - amount, held: self.held + amount, ..self }
    }

    /// The balances after the resolution of a dispute over `amount`.
    pub open spec fn resolved(self, amount: real) -> Balances {
        Balances { available: self.available + amount, held: self.held - amount, ..self }
    }

    /// The balances after a chargeback of `amount`: the account is locked.
    pub open spec fn charged_back(self, amount: real) -> Balances {
        Balances { held: self.held - amount, total: self.total - amount, locked: true, ..self }
    }

    /// Why a deposit is not applied, if it is not.
    pub open spec fn deposit_rejection(self, transaction: Transaction) -> Option<
        RejectedTransaction,
    > {
        if self.locked {
            Some(RejectedTransaction::AccountLocked)
        } else if transaction.amount is None {
            Some(RejectedTransaction::TargetTransactionAmountMissing)
        } else {
            None
        }
    }

    /// Why a withdrawal is not applied, if it is not. The available funds
    /// must be strictly greater than the amount.
    pub open spec fn withdrawal_rejection(self, transaction: Transaction) -> Option<
        RejectedTransaction,
    > {
        if self.locked {
            Some(RejectedTransaction::AccountLocked)
        } else if transaction.amount is None {
            Some(RejectedTransaction::TargetTransactionAmountMissing)
        } else if !(self.available > transaction.amount.unwrap().value()) {
            Some(RejectedTransaction::InsufficientFunds)
        } else {
            None
        }
    }

    /// What stands in the way of a transaction that refers to an earlier
    /// one, before any balance is looked at: a locked account, an identifier
    /// that the store does not hold, a stored transaction without amount.
    pub open spec fn reference_rejection(
        self,
        transaction: Transaction,
        store: Map<TransactionID, Transaction>,
    ) -> Option<RejectedTransaction> {
        if self.locked {
            Some(RejectedTransaction::AccountLocked)
        } else if !store.contains_key(transaction.id) {
            Some(RejectedTransaction::IDNotFound)
        } else if store[transaction.id].amount is None {
            Some(RejectedTransaction::TargetTransactionAmountMissing)
        } else {
            None
        }
    }

    /// Why a dispute is not applied, if it is not. The available funds must
    /// be strictly greater than the disputed amount.
    pub open spec fn dispute_rejection(
        self,
        transaction: Transaction,
        store: Map<TransactionID, Transaction>,
    ) -> Option<RejectedTransaction> {
        if self.reference_rejection(transaction, store) is Some {
            self.reference_rejection(transaction, store)
        } else if !(self.available > store[transaction.id].amount.unwrap().value()) {
            Some(RejectedTransaction::InsufficientFunds)
        } else {
            None
        }
    }

    /// Why a resolution is not applied, if it is not. The amount must not be
    /// greater than the held funds.
    pub open spec fn resolve_rejection(
        self,
        transaction: Transaction,
        store: Map<TransactionID, Transaction>,
    ) -> Option<RejectedTransaction> {
        if self.reference_rejection(transaction, store) is Some {
            self.reference_rejection(transaction, store)
        } else if store[transaction.id].amount.unwrap().value() > self.held {
            Some(RejectedTransaction::InconsistentWithValueHeld)
        } else {
            None
        }
    }

    /// Why a chargeback is not applied, if it is not. The amount must not be
    /// greater than the held funds.
    pub open spec fn chargeback_rejection(
        self,
        transaction: Transaction,
        store: Map<TransactionID, Transaction>,
    ) -> Option<RejectedTransaction> {
        if self.reference_rejection(transaction, store) is Some {
            self.reference_rejection(transaction, store)
        } else if store[transaction.id].amount.unwrap().value() > self.held {
            Some(RejectedTransaction::InsufficientFunds)
        } else {
            None
        }
    }
}

impl Balances {
    /// Whether the available and the held funds add up to the total.
    pub open spec fn adds_up(self) -> bool {
        self.available + self.held == self.total
    }

    /// Whatever a transaction does to balances that add up, they add up
    /// afterwards.
    pub proof fn lemma_every_step_adds_up(self, amount: real)
        requires
            self.adds_up(),
        ensures
            self.deposited(amount).adds_up(),
            self.withdrawn(amount).adds_up(),
            self.disputed(amount).adds_up(),
            self.resolved(amount).adds_up(),
            self.charged_back(amount).adds_up(),
    {
    }

    /// A withdrawal of as much as is available, or of more, is rejected.
    pub proof fn lemma_withdrawal_needs_more_than_it_takes(self, transaction: Transaction)
        requires
            transaction.amount matches Some(amount) && amount.value() >= self.available,
        ensures
            self.withdrawal_rejection(transaction) is Some,
            !self.locked ==> self.withdrawal_rejection(transaction) == Some(
                RejectedTransaction::InsufficientFunds,
            ),
    {
    }

    /// A dispute and its resolution cancel: the available and the held funds
    /// are what they were, and the total has not changed on the way.
    pub proof fn lemma_dispute_then_resolve(self, amount: real)
        ensures
            self.disputed(amount).resolved(amount) == self,
            self.disputed(amount).total == self.total,
            self.disputed(amount).resolved(amount).total == self.total,
    {
    }

    /// Where a dispute was applied to an account whose held funds were not
    /// negative, the resolution of the same transaction is applied too.
    pub proof fn lemma_resolve_follows_dispute(
        self,
        dispute: Transaction,
        resolve: Transaction,
        store: Map<TransactionID, Transaction>,
    )
        requires
            self.dispute_rejection(dispute, store) is None,
            resolve.id == dispute.id,
            self.held >= 0real,
        ensures
            self.disputed(store[dispute.id].amount.unwrap().value()).resolve_rejection(
                resolve,
                store,
            ) is None,
    {
    }

    /// A dispute followed by the chargeback of the same amount takes the
    /// amount from the held funds and from the total, and locks the account.
    pub proof fn lemma_dispute_then_chargeback(self, amount: real)
        ensures
            self.disputed(amount).charged_back(amount).held == self.disputed(amount).held
                - amount,
            self.disputed(amount).charged_back(amount).total == self.disputed(amount).total
                - amount,
            self.disputed(amount).charged_back(amount).total == self.total - amount,
            self.disputed(amount).charged_back(amount).held == self.held,
            self.disputed(amount).charged_back(amount).locked,
    {
    }

    /// A locked account rejects every transaction, of whatever kind, because
    /// it is locked.
    pub proof fn lemma_locked_rejects_all(
        self,
        transaction: Transaction,
        store: Map<TransactionID, Transaction>,
    )
        requires
            self.locked,
        ensures
            self.deposit_rejection(transaction) == Some(RejectedTransaction::AccountLocked),
            self.withdrawal_rejection(transaction) == Some(RejectedTransaction::AccountLocked),
            self.dispute_rejection(transaction, store) == Some(
                RejectedTransaction::AccountLocked,
            ),
            self.resolve_rejection(transaction, store) == Some(
                RejectedTransaction::AccountLocked,
            ),
            self.chargeback_rejection(transaction, store) == Some(
                RejectedTransaction::AccountLocked,
            ),
    {
    }
}

impl View for Account {
    type V = Balances;

    open spec fn view(&self) -> Balances {
        Balances {
            client_id: self.client(),
            available: self.available().value(),
            held: self.held().value(),
            total: self.total().value(),
            locked: self.locked(),
        }
    }
}

impl Account {
    /// The client that the account belongs to.
    pub closed spec fn client(self) -> ClientID {
        self.client_id
    }

    /// The funds that the client may withdraw.
    pub closed spec fn available(self) -> Amount {
        self.available
    }

    /// The funds kept back while a dispute lasts.
    pub closed spec fn held(self) -> Amount {
        self.held
    }

    /// All funds of the account.
    pub closed spec fn total(self) -> Amount {
        self.total
    }

    /// Whether the account is locked.
    pub closed spec fn locked(self) -> bool {
        self.locked
    }

    /// A valid account has three valid balances, and its available and held
    /// funds add up to its total.
    pub open spec fn wf(self) -> bool {
        &&& self.available().wf()
        &&& self.held().wf()
        &&& self.total().wf()
        &&& self@.adds_up()
    }

    /// A new account: no funds, not locked.
    pub fn new(id: ClientID) -> (account: Self)
        ensures
            account.wf(),
            account@ == (Balances {
                client_id: id,
                available: 0real,
                held: 0real,
                total: 0real,
                locked: false,
            }),
            account == Account::opened(id),
    {
        Self {
            client_id: id,
            available: Amount::zero(),
            held: Amount::zero(),
            total: Amount::zero(),
            locked: false,
        }
    }

    /// A newly opened account is valid, belongs to its client, holds nothing
    /// and is not locked.
    pub proof fn lemma_opened(id: ClientID)
        ensures
            Account::opened(id).wf(),
            Account::opened(id)@ == (Balances {
                client_id: id,
                available: 0real,
                held: 0real,
                total: 0real,
                locked: false,
            }),
    {
        let zero = Amount { negative: false, numer: 0, denom: 1, precision: 0 };
        assert(zero.value() == 0real) by (nonlinear_arith)
            requires
                zero.value() == ratio(0, 1),
        ;
        assert(pow10(0) % 1 == 0);
    }

    /// The account that [`Account::new`] makes.
    pub closed spec fn opened(id: ClientID) -> Account {
        let zero = Amount { negative: false, numer: 0, denom: 1, precision: 0 };
        Account { client_id: id, available: zero, held: zero, total: zero, locked: false }
    }

    /// Whether the sums that a deposit needs can be formed.
    pub open spec fn deposit_fits(self, transaction: Transaction) -> bool {
        self@.deposit_rejection(transaction) is None ==> {
            &&& self.available().combines_with(transaction.amount.unwrap())
            &&& self.total().combines_with(transaction.amount.unwrap())
        }
    }

    /// Applies a deposit: the amount is added to the available and to the
    /// total funds.
    pub fn process_deposit(&mut self, transaction: &Transaction) -> (result: Result<Transaction>)
        requires
            old(self).wf(),
            transaction.wf(),
            old(self).deposit_fits(*transaction),
        ensures
            final(self).wf(),
            match result {
                Ok(applied) => {
                    &&& old(self)@.deposit_rejection(*transaction) is None
                    &&& applied == *transaction
                    &&& final(self)@ == old(self)@.deposited(transaction.amount.unwrap().value())
                },
                Err(rejection) => {
                    &&& old(self)@.deposit_rejection(*transaction) == Some(rejection)
                    &&& *final(self) == *old(self)
                },
            },
    {
        if self.locked {
            return Err(RejectedTransaction::AccountLocked);
        }
        let amount = match transaction.amount {
            None => return Err(RejectedTransaction::TargetTransactionAmountMissing),
            Some(value) => value,
        };
        self.available = self.available.plus(amount);
        self.total = self.total.plus(amount);
        Ok(*transaction)
    }

    /// Whether the differences that a withdrawal needs can be formed.
    pub open spec fn withdrawal_fits(self, transaction: Transaction) -> bool {
        self@.withdrawal_rejection(transaction) is None ==> {
            &&& self.available().combines_with(transaction.amount.unwrap())
            &&& self.total().combines_with(transaction.amount.unwrap())
        }
    }

    /// Applies a withdrawal: the amount is taken from the available and from
    /// the total funds.
    pub fn process_withdrawal(&mut self, transaction: &Transaction) -> (result: Result<
        Transaction,
    >)
        requires
            old(self).wf(),
            transaction.wf(),
            old(self).withdrawal_fits(*transaction),
        ensures
            final(self).wf(),
            match result {
                Ok(applied) => {
                    &&& old(self)@.withdrawal_rejection(*transaction) is None
                    &&& applied == *transaction
                    &&& final(self)@ == old(self)@.withdrawn(transaction.amount.unwrap().value())
                },
                Err(rejection) => {
                    &&& old(self)@.withdrawal_rejection(*transaction) == Some(rejection)
                    &&& *final(self) == *old(self)
                },
            },
            transaction.amount matches Some(amount) && amount.value() >= old(self)@.available
                ==> result is Err && *final(self) == *old(self),
    {
        if self.locked {
            return Err(RejectedTransaction::AccountLocked);
        }
        let amount = match transaction.amount {
            None => return Err(RejectedTransaction::TargetTransactionAmountMissing),
            Some(value) => value,
        };
        if self.available.exceeds(amount) {
            self.available = self.available.minus(amount);
            self.total = self.total.minus(amount);
            Ok(*transaction)
        } else {
            Err(RejectedTransaction::InsufficientFunds)
        }
    }

    /// Whether the sum and the difference that a dispute needs can be formed.
    pub open spec fn dispute_fits(
        self,
        transaction: Transaction,
        store: Map<TransactionID, Transaction>,
    ) -> bool {
        self@.dispute_rejection(transaction, store) is None ==> {
            &&& self.held().combines_with(store[transaction.id].amount.unwrap())
            &&& self.available().combines_with(store[transaction.id].amount.unwrap())
        }
    }

    /// Applies a dispute of the stored transaction that has the identifier of
    /// `transaction`: its amount moves from the available to the held funds.
    pub fn process_dispute(
        &mut self,
        transaction: &Transaction,
        transactions: &mut Transactions,
    ) -> (result: Result<Transaction>)
        requires
            old(self).wf(),
            old(transactions).wf(),
            old(self).dispute_fits(*transaction, old(transactions)@),
        ensures
            final(self).wf(),
            *final(transactions) == *old(transactions),
            match result {
                Ok(applied) => {
                    &&& old(self)@.dispute_rejection(*transaction, old(transactions)@) is None
                    &&& applied == *transaction
                    &&& final(self)@ == old(self)@.disputed(
                        old(transactions)@[transaction.id].amount.unwrap().value(),
                    )
                },
                Err(rejection) => {
                    &&& old(self)@.dispute_rejection(*transaction, old(transactions)@) == Some(
                        rejection,
                    )
                    &&& *final(self) == *old(self)
                },
            },
    {
        if self.locked {
            return Err(RejectedTransaction::AccountLocked);
        }
        let amount = match transactions.get(transaction.id) {
            None => return Err(RejectedTransaction::IDNotFound),
            Some(disputed) => match disputed.amount {
                None => return Err(RejectedTransaction::TargetTransactionAmountMissing),
                Some(value) => value,
            },
        };
        if self.available.exceeds(amount) {
            self.held = self.held.plus(amount);
            self.available = self.available.minus(amount);
            Ok(*transaction)
        } else {
            Err(RejectedTransaction::InsufficientFunds)
        }
    }

    /// Whether the sum and the difference that a resolution needs can be
    /// formed.
    pub open spec fn resolve_fits(
        self,
        transaction: Transaction,
        store: Map<TransactionID, Transaction>,
    ) -> bool {
        self@.resolve_rejection(transaction, store) is None ==> {
            &&& self.held().combines_with(store[transaction.id].amount.unwrap())
            &&& self.available().combines_with(store[transaction.id].amount.unwrap())
        }
    }

    /// Applies the resolution of a dispute: the amount of the stored
    /// transaction moves back from the held to the available funds.
    pub fn process_resolve(
        &mut self,
        transaction: &Transaction,
        transactions: &mut Transactions,
    ) -> (result: Result<Transaction>)
        requires
            old(self).wf(),
            old(transactions).wf(),
            old(self).resolve_fits(*transaction, old(transactions)@),
        ensures
            final(self).wf(),
            *final(transactions) == *old(transactions),
            match result {
                Ok(applied) => {
                    &&& old(self)@.resolve_rejection(*transaction, old(transactions)@) is None
                    &&& applied == *transaction
                    &&& final(self)@ == old(self)@.resolved(
                        old(transactions)@[transaction.id].amount.unwrap().value(),
                    )
                },
                Err(rejection) => {
                    &&& old(self)@.resolve_rejection(*transaction, old(transactions)@) == Some(
                        rejection,
                    )
                    &&& *final(self) == *old(self)
                },
            },
    {
        if self.locked {
            return Err(RejectedTransaction::AccountLocked);
        }
        let amount = match transactions.get(transaction.id) {
            None => return Err(RejectedTransaction::IDNotFound),
            Some(resolved) => match resolved.amount {
                None => return Err(RejectedTransaction::TargetTransactionAmountMissing),
                Some(value) => value,
            },
        };
        if amount.exceeds(self.held) {
            Err(RejectedTransaction::InconsistentWithValueHeld)
        } else {
            self.held = self.held.minus(amount);
            self.available = self.available.plus(amount);
            Ok(*transaction)
        }
    }

    /// Whether the differences that a chargeback needs can be formed.
    pub open spec fn chargeback_fits(
        self,
        transaction: Transaction,
        store: Map<TransactionID, Transaction>,
    ) -> bool {
        self@.chargeback_rejection(transaction, store) is None ==> {
            &&& self.held().combines_with(store[transaction.id].amount.unwrap())
            &&& self.total().combines_with(store[transaction.id].amount.unwrap())
        }
    }

    /// Applies a chargeback: the amount of the stored transaction leaves the
    /// held and the total funds, and the account is locked.
    pub fn process_chargeback(
        &mut self,
        transaction: &Transaction,
        transactions: &mut Transactions,
    ) -> (result: Result<Transaction>)
        requires
            old(self).wf(),
            old(transactions).wf(),
            old(self).chargeback_fits(*transaction, old(transactions)@),
        ensures
            final(self).wf(),
            *final(transactions) == *old(transactions),
            match result {
                Ok(applied) => {
                    &&& old(self)@.chargeback_rejection(*transaction, old(transactions)@) is None
                    &&& applied == *transaction
                    &&& final(self)@ == old(self)@.charged_back(
                        old(transactions)@[transaction.id].amount.unwrap().value(),
                    )
                },
                Err(rejection) => {
                    &&& old(self)@.chargeback_rejection(*transaction, old(transactions)@) == Some(
                        rejection,
                    )
                    &&& *final(self) == *old(self)
                },
            },
    {
        if self.locked {
            return Err(RejectedTransaction::AccountLocked);
        }
        let amount = match transactions.get(transaction.id) {
            None => return Err(RejectedTransaction::IDNotFound),
            Some(disputed) => match disputed.amount {
                None => return Err(RejectedTransaction::TargetTransactionAmountMissing),
                Some(value) => value,
            },
        };
        if amount.exceeds(self.held) {
            return Err(RejectedTransaction::InsufficientFunds);
        }
        self.held = self.held.minus(amount);
        self.total = self.total.minus(amount);
        self.locked = true;
        Ok(*transaction)
    }

    /// Tests whether the sums that a deposit needs can be formed.
    pub fn can_deposit(&self, transaction: &Transaction) -> (fits: bool)
        requires
            self.wf(),
            transaction.wf(),
        ensures
            fits == self.deposit_fits(*transaction),
    {
        match transaction.amount {
            Some(amount) if !self.locked => self.available.can_combine(&amount)
                && self.total.can_combine(&amount),
            _ => true,
        }
    }

    /// Tests whether the differences that a withdrawal needs can be formed.
    pub fn can_withdraw(&self, transaction: &Transaction) -> (fits: bool)
        requires
            self.wf(),
            transaction.wf(),
        ensures
            fits == self.withdrawal_fits(*transaction),
    {
        match transaction.amount {
            Some(amount) if !self.locked && self.available.exceeds(amount) => {
                self.available.can_combine(&amount) && self.total.can_combine(&amount)
            },
            _ => true,
        }
    }

    /// The amount that a dispute, a resolution or a chargeback would move, if
    /// nothing stands in its way before the balances are looked at.
    fn referred_amount(&self, transaction: &Transaction, transactions: &Transactions) -> (found:
        Option<Amount>)
        requires
            transactions.wf(),
        ensures
            match found {
                Some(amount) => self@.reference_rejection(*transaction, transactions@) is None
                    && amount == transactions@[transaction.id].amount.unwrap() && amount.wf(),
                None => self@.reference_rejection(*transaction, transactions@) is Some,
            },
    {
        if self.locked {
            return None;
        }
        match transactions.get(transaction.id) {
            None => None,
            Some(stored) => stored.amount,
        }
    }

    /// Tests whether the sum and the difference that a dispute needs can be
    /// formed.
    pub fn can_dispute(&self, transaction: &Transaction, transactions: &Transactions) -> (fits:
        bool)
        requires
            self.wf(),
            transactions.wf(),
        ensures
            fits == self.dispute_fits(*transaction, transactions@),
    {
        match self.referred_amount(transaction, transactions) {
            Some(amount) if self.available.exceeds(amount) => self.held.can_combine(&amount)
                && self.available.can_combine(&amount),
            _ => true,
        }
    }

    /// Tests whether the sum and the difference that a resolution needs can
    /// be formed.
    pub fn can_resolve(&self, transaction: &Transaction, transactions: &Transactions) -> (fits:
        bool)
        requires
            self.wf(),
            transactions.wf(),
        ensures
            fits == self.resolve_fits(*transaction, transactions@),
    {
        match self.referred_amount(transaction, transactions) {
            Some(amount) if !amount.exceeds(self.held) => self.held.can_combine(&amount)
                && self.available.can_combine(&amount),
            _ => true,
        }
    }

    /// Tests whether the differences that a chargeback needs can be formed.
    pub fn can_charge_back(
        &self,
        transaction: &Transaction,
        transactions: &Transactions,
    ) -> (fits: bool)
        requires
            self.wf(),
            transactions.wf(),
        ensures
            fits == self.chargeback_fits(*transaction, transactions@),
    {
        match self.referred_amount(transaction, transactions) {
            Some(amount) if !amount.exceeds(self.held) => self.held.can_combine(&amount)
                && self.total.can_combine(&amount),
            _ => true,
        }
    }

    /// The funds that the client may withdraw.
    pub fn available_balance(&self) -> (amount: Amount)
        ensures
            amount == self.available(),
    {
        self.available
    }

    /// The funds kept back while a dispute lasts.
    pub fn held_balance(&self) -> (amount: Amount)
        ensures
            amount == self.held(),
    {
        self.held
    }

    /// All funds of the account.
    pub fn total_balance(&self) -> (amount: Amount)
        ensures
            amount == self.total(),
    {
        self.total
    }

    /// Whether the account is locked.
    pub fn is_locked(&self) -> (locked: bool)
        ensures
            locked == self.locked(),
    {
        self.locked
    }
}

} // verus!
