use integrator::app::App;
use integrator::models::account::{Account, RejectedTransaction};
use integrator::models::amount::Amount;
use integrator::models::transaction::{Transaction, TransactionType};
use integrator::models::transactions::Transactions;

fn amount(text: &str) -> Amount {
    Amount::parse(text).unwrap()
}

fn deposit(client_id: u16, id: u32, text: &str) -> Transaction {
    Transaction { kind: TransactionType::Deposit, client_id, id, amount: Some(amount(text)) }
}

fn withdrawal(client_id: u16, id: u32, text: &str) -> Transaction {
    Transaction { kind: TransactionType::Withdrawal, client_id, id, amount: Some(amount(text)) }
}

fn reference(kind: TransactionType, client_id: u16, id: u32) -> Transaction {
    Transaction { kind, client_id, id, amount: None }
}

fn balances(app: &mut App, client_id: u16) -> (String, String, String, bool) {
    let show = |value: Amount| {
        format!("{}{}/{}", if value.negative { "-" } else { "" }, value.numer, value.denom)
    };
    (
        show(app.get_available_balance(client_id)),
        show(app.get_held_balance(client_id)),
        show(app.get_total_balance(client_id)),
        app.is_locked(client_id),
    )
}

fn adds_up(app: &mut App, client_id: u16) -> bool {
    app.get_available_balance(client_id).plus(app.get_held_balance(client_id))
        == app.get_total_balance(client_id)
}

#[test]
fn two_deposits_add_to_the_available_and_total_funds() {
    let mut app = App::new();
    assert_eq!(app.process(deposit(2, 5, "3.0")), Ok(deposit(2, 5, "3.0")));
    assert_eq!(app.get_available_balance(2), amount("3.0000"));
    app.process(deposit(2, 15, "1.5")).unwrap();
    assert_eq!(app.get_available_balance(2), amount("4.5000"));
    assert_eq!(app.get_held_balance(2), amount("0"));
    assert_eq!(app.get_total_balance(2), amount("4.5000"));
    assert!(!app.is_locked(2));
    assert_eq!(balances(&mut app, 2), ("9/2".to_string(), "0/1".to_string(), "9/2".to_string(), false));
}

#[test]
fn a_withdrawal_takes_from_the_available_and_total_funds() {
    let mut app = App::new();
    app.process(deposit(2, 5, "3.0")).unwrap();
    app.process(withdrawal(2, 15, "1.3")).unwrap();
    assert_eq!(app.get_available_balance(2), amount("1.7000"));
    assert_eq!(app.get_total_balance(2), amount("1.7000"));
    assert_eq!(app.get_held_balance(2), amount("0"));
}

#[test]
fn a_dispute_holds_funds_and_a_resolution_releases_them() {
    let mut app = App::new();
    app.process(deposit(2, 4, "2.0")).unwrap();
    app.process(deposit(2, 5, "1.5")).unwrap();
    app.process(reference(TransactionType::Dispute, 2, 4)).unwrap();
    assert_eq!(app.get_held_balance(2), amount("2.0000"));
    assert_eq!(app.get_available_balance(2), amount("1.5000"));
    assert_eq!(app.get_total_balance(2), amount("3.5000"));
    app.process(reference(TransactionType::Resolve, 2, 4)).unwrap();
    assert_eq!(app.get_held_balance(2), amount("0"));
    assert_eq!(app.get_available_balance(2), amount("3.5000"));
    assert_eq!(app.get_total_balance(2), amount("3.5000"));
    assert!(!app.is_locked(2));
}

#[test]
fn a_chargeback_removes_the_held_funds_and_locks_the_account() {
    let mut app = App::new();
    app.process(deposit(2, 4, "2.0")).unwrap();
    app.process(deposit(2, 5, "1.5")).unwrap();
    app.process(reference(TransactionType::Dispute, 2, 4)).unwrap();
    app.process(reference(TransactionType::Chargeback, 2, 4)).unwrap();
    assert_eq!(app.get_held_balance(2), amount("0"));
    assert_eq!(app.get_total_balance(2), amount("1.5000"));
    assert_eq!(app.get_available_balance(2), amount("1.5000"));
    assert!(app.is_locked(2));
}

#[test]
fn a_locked_account_rejects_every_kind_of_transaction() {
    let mut app = App::new();
    app.process(deposit(2, 4, "2.0")).unwrap();
    app.process(deposit(2, 5, "1.5")).unwrap();
    app.process(reference(TransactionType::Dispute, 2, 4)).unwrap();
    app.process(reference(TransactionType::Chargeback, 2, 4)).unwrap();
    let before = balances(&mut app, 2);
    let locked = Err(RejectedTransaction::AccountLocked);
    assert_eq!(app.process(deposit(2, 6, "1.0")), locked);
    assert_eq!(app.process(withdrawal(2, 7, "1.0")), locked);
    assert_eq!(app.process(reference(TransactionType::Dispute, 2, 5)), locked);
    assert_eq!(app.process(reference(TransactionType::Resolve, 2, 4)), locked);
    assert_eq!(app.process(reference(TransactionType::Chargeback, 2, 4)), locked);
    assert_eq!(app.process(reference(TransactionType::Dispute, 2, 99)), locked);
    assert_eq!(balances(&mut app, 2), before);
    // The account of another client is not touched.
    assert_eq!(app.process(deposit(3, 8, "1.0")), Ok(deposit(3, 8, "1.0")));
}

#[test]
fn a_withdrawal_of_all_that_is_available_or_more_changes_nothing() {
    let mut app = App::new();
    app.process(deposit(1, 1, "5.00")).unwrap();
    let before = balances(&mut app, 1);
    let rejected = Err(RejectedTransaction::InsufficientFunds);
    assert_eq!(app.process(withdrawal(1, 2, "5.01")), rejected);
    assert_eq!(balances(&mut app, 1), before);
    // The available funds must be strictly greater than the amount.
    assert_eq!(app.process(withdrawal(1, 3, "5")), rejected);
    assert_eq!(balances(&mut app, 1), before);
    assert_eq!(app.process(withdrawal(1, 4, "4.99")), Ok(withdrawal(1, 4, "4.99")));
    assert_eq!(app.get_available_balance(1), amount("0.01"));
    // From an account without funds nothing can be withdrawn, not even nothing.
    assert_eq!(app.process(withdrawal(9, 5, "0")), rejected);
}

#[test]
fn a_rejected_deposit_or_withdrawal_is_stored_all_the_same() {
    let mut app = App::new();
    assert_eq!(app.transactions_size(), 0);
    assert_eq!(app.process(withdrawal(1, 1, "5")), Err(RejectedTransaction::InsufficientFunds));
    assert_eq!(app.transactions_size(), 1);
    app.process(deposit(1, 2, "9")).unwrap();
    assert_eq!(app.transactions_size(), 2);
    // A dispute, a resolution and a chargeback are never stored.
    app.process(reference(TransactionType::Dispute, 1, 1)).unwrap();
    app.process(reference(TransactionType::Resolve, 1, 1)).unwrap();
    assert_eq!(app.transactions_size(), 2);
    assert_eq!(app.get_available_balance(1), amount("9"));
}

#[test]
fn a_transaction_stored_under_a_used_identifier_replaces_the_earlier_one() {
    let mut app = App::new();
    app.process(deposit(1, 7, "10")).unwrap();
    app.process(deposit(1, 7, "2.5")).unwrap();
    assert_eq!(app.transactions_size(), 1);
    app.process(reference(TransactionType::Dispute, 1, 7)).unwrap();
    assert_eq!(app.get_held_balance(1), amount("2.5"));
    assert_eq!(app.get_available_balance(1), amount("10"));
}

#[test]
fn a_dispute_needs_a_stored_transaction_and_more_funds_than_it_holds() {
    let mut app = App::new();
    app.process(deposit(1, 1, "4")).unwrap();
    assert_eq!(
        app.process(reference(TransactionType::Dispute, 1, 2)),
        Err(RejectedTransaction::IDNotFound)
    );
    // All that is available cannot be disputed.
    assert_eq!(
        app.process(reference(TransactionType::Dispute, 1, 1)),
        Err(RejectedTransaction::InsufficientFunds)
    );
    app.process(deposit(1, 3, "0.0001")).unwrap();
    assert_eq!(
        app.process(reference(TransactionType::Dispute, 1, 1)),
        Ok(reference(TransactionType::Dispute, 1, 1))
    );
    assert_eq!(app.get_available_balance(1), amount("0.0001"));
    assert_eq!(app.get_held_balance(1), amount("4"));
    assert_eq!(app.get_total_balance(1), amount("4.0001"));
}

#[test]
fn a_withdrawal_can_be_disputed_like_a_deposit() {
    let mut app = App::new();
    app.process(deposit(1, 1, "10")).unwrap();
    app.process(withdrawal(1, 2, "3")).unwrap();
    app.process(reference(TransactionType::Dispute, 1, 2)).unwrap();
    assert_eq!(app.get_available_balance(1), amount("4"));
    assert_eq!(app.get_held_balance(1), amount("3"));
    assert_eq!(app.get_total_balance(1), amount("7"));
}

#[test]
fn a_resolution_of_more_than_is_held_is_inconsistent() {
    let mut app = App::new();
    app.process(deposit(1, 1, "4")).unwrap();
    let before = balances(&mut app, 1);
    assert_eq!(
        app.process(reference(TransactionType::Resolve, 1, 1)),
        Err(RejectedTransaction::InconsistentWithValueHeld)
    );
    assert_eq!(
        app.process(reference(TransactionType::Resolve, 1, 5)),
        Err(RejectedTransaction::IDNotFound)
    );
    assert_eq!(balances(&mut app, 1), before);
}

#[test]
fn a_chargeback_of_more_than_is_held_has_insufficient_funds() {
    let mut app = App::new();
    app.process(deposit(1, 1, "4")).unwrap();
    let before = balances(&mut app, 1);
    assert_eq!(
        app.process(reference(TransactionType::Chargeback, 1, 1)),
        Err(RejectedTransaction::InsufficientFunds)
    );
    assert_eq!(
        app.process(reference(TransactionType::Chargeback, 1, 5)),
        Err(RejectedTransaction::IDNotFound)
    );
    assert_eq!(balances(&mut app, 1), before);
    assert!(!app.is_locked(1));
}

#[test]
fn a_deposit_or_withdrawal_without_amount_is_rejected() {
    let mut app = App::new();
    let missing = Err(RejectedTransaction::TargetTransactionAmountMissing);
    assert_eq!(app.process(reference(TransactionType::Deposit, 1, 1)), missing);
    assert_eq!(app.process(reference(TransactionType::Withdrawal, 1, 2)), missing);
    // Both were stored, and neither has an amount that could be disputed.
    assert_eq!(app.transactions_size(), 2);
    assert_eq!(app.process(reference(TransactionType::Dispute, 1, 1)), missing);
    assert_eq!(app.process(reference(TransactionType::Resolve, 1, 2)), missing);
    assert_eq!(app.process(reference(TransactionType::Chargeback, 1, 2)), missing);
}

#[test]
fn looking_up_an_unknown_client_opens_an_empty_account() {
    let mut app = App::new();
    assert_eq!(app.get_account(7).err(), Some(RejectedTransaction::IDNotFound));
    assert_eq!(app.accounts.len(), 0);
    assert_eq!(app.get_available_balance(7), Amount::zero());
    assert_eq!(app.accounts.len(), 1);
    assert_eq!(app.get_held_balance(8), Amount::zero());
    assert_eq!(app.get_total_balance(9), Amount::zero());
    assert!(!app.is_locked(10));
    assert_eq!(app.accounts.len(), 4);
    let account = app.get_account(7).unwrap();
    assert_eq!(account.client_id, 7);
    assert_eq!(account.total_balance(), Amount::zero());
    assert!(!account.is_locked());
    let opened = App::get_or_create_account(&mut app.accounts, 12);
    assert_eq!(opened.client_id, 12);
    assert_eq!(opened.available_balance(), Amount::zero());
    opened.process_deposit(&deposit(12, 1, "2")).unwrap();
    assert_eq!(app.get_available_balance(12), amount("2"));
    assert_eq!(app.accounts.len(), 5);
    // A rejected transaction opens the account of its client too.
    assert!(app.process(reference(TransactionType::Dispute, 11, 1)).is_err());
    assert!(app.get_account(11).is_ok());
}

#[test]
fn the_available_and_held_funds_always_add_up_to_the_total() {
    let mut app = App::new();
    let steps = [
        deposit(1, 1, "10.5"),
        deposit(2, 2, "0.0001"),
        withdrawal(1, 3, "0.25"),
        reference(TransactionType::Dispute, 1, 1),
        withdrawal(1, 4, "100"),
        deposit(1, 5, "20"),
        reference(TransactionType::Dispute, 1, 1),
        reference(TransactionType::Resolve, 1, 3),
        reference(TransactionType::Dispute, 2, 2),
        reference(TransactionType::Chargeback, 1, 1),
        deposit(1, 6, "1"),
    ];
    for step in steps {
        assert!(app.can_process(&step));
        let _ = app.process(step);
        assert!(adds_up(&mut app, 1));
        assert!(adds_up(&mut app, 2));
    }
    assert_eq!(
        balances(&mut app, 1),
        ("21/1".to_string(), "41/4".to_string(), "125/4".to_string(), false)
    );
}

#[test]
fn a_dispute_and_its_resolution_leave_the_funds_as_they_were() {
    let mut app = App::new();
    app.process(deposit(1, 1, "3.25")).unwrap();
    app.process(deposit(1, 2, "1.125")).unwrap();
    let available = app.get_available_balance(1);
    let held = app.get_held_balance(1);
    let total = app.get_total_balance(1);
    app.process(reference(TransactionType::Dispute, 1, 1)).unwrap();
    assert_eq!(app.get_total_balance(1), total);
    app.process(reference(TransactionType::Resolve, 1, 1)).unwrap();
    assert_eq!(app.get_available_balance(1), available);
    assert_eq!(app.get_held_balance(1), held);
    assert_eq!(app.get_total_balance(1), total);
}

#[test]
fn can_process_tells_when_a_balance_would_leave_the_machine() {
    let mut app = App::new();
    let huge = Transaction {
        kind: TransactionType::Deposit,
        client_id: 1,
        id: 1,
        amount: Amount::new(false, u64::MAX, 1, 0),
    };
    assert!(app.can_process(&huge));
    app.process(huge).unwrap();
    assert!(!app.can_process(&deposit(1, 2, "1")));
    assert!(app.can_process(&deposit(2, 2, "1")));
    // The test is the same for a difference: it is stricter than a difference needs.
    assert!(!app.can_process(&withdrawal(1, 3, "1")));
    assert!(app.can_process(&withdrawal(1, 3, "0")));
    // What would be rejected needs no sum.
    assert!(app.can_process(&reference(TransactionType::Dispute, 1, 9)));
}

#[test]
fn process_record_reads_and_applies() {
    let mut app = App::new();
    let taken = app.process_record(vec!["deposit", " 4 ", " 1 ", " 2.50 "]).unwrap();
    assert_eq!(taken, deposit(4, 1, "2.5"));
    assert_eq!(app.get_available_balance(4), amount("2.5"));
    assert_eq!(
        app.process_record(vec!["refund", "4", "2", "1"]),
        Err(RejectedTransaction::InvalidInput)
    );
    assert_eq!(app.process_record(Vec::new()), Err(RejectedTransaction::InvalidType));
    assert_eq!(app.transactions_size(), 1);
    assert_eq!(
        app.process_record(vec!["withdrawal", "4", "3", "2.5"]),
        Err(RejectedTransaction::InsufficientFunds)
    );
    assert_eq!(app.transactions_size(), 2);
}

#[test]
fn an_account_applies_transactions_against_a_store() {
    let mut store = Transactions::new();
    assert_eq!(store.set(deposit(1, 10, "7")), None);
    assert_eq!(store.set(deposit(1, 10, "8")), Some(10));
    assert_eq!(store.set(reference(TransactionType::Deposit, 1, 11)), None);
    assert_eq!(store.size(), 2);
    assert_eq!(store.get(10), Some(&deposit(1, 10, "8")));
    assert_eq!(store.get(12), None);
    let mut account = Account::new(1);
    assert_eq!(account.client_id, 1);
    account.process_deposit(&deposit(1, 10, "8")).unwrap();
    account.process_deposit(&deposit(1, 13, "1")).unwrap();
    assert!(account.can_dispute(&reference(TransactionType::Dispute, 1, 10), &store));
    account.process_dispute(&reference(TransactionType::Dispute, 1, 10), &mut store).unwrap();
    assert_eq!(account.held_balance(), amount("8"));
    assert_eq!(
        account.process_dispute(&reference(TransactionType::Dispute, 1, 11), &mut store),
        Err(RejectedTransaction::TargetTransactionAmountMissing)
    );
    account.process_resolve(&reference(TransactionType::Resolve, 1, 10), &mut store).unwrap();
    assert_eq!(account.available_balance(), amount("9"));
    account.process_withdrawal(&withdrawal(1, 14, "0.5")).unwrap();
    assert_eq!(account.total_balance(), amount("8.5"));
    assert_eq!(
        account.process_chargeback(&reference(TransactionType::Chargeback, 1, 10), &mut store),
        Err(RejectedTransaction::InsufficientFunds)
    );
    account.process_dispute(&reference(TransactionType::Dispute, 1, 10), &mut store).unwrap();
    assert_eq!(account.available_balance(), amount("0.5"));
    account.process_chargeback(&reference(TransactionType::Chargeback, 1, 10), &mut store).unwrap();
    assert!(account.is_locked());
    assert_eq!(account.held_balance(), amount("0"));
    assert_eq!(account.total_balance(), amount("0.5"));
    assert_eq!(
        account.process_withdrawal(&withdrawal(1, 15, "0.1")),
        Err(RejectedTransaction::AccountLocked)
    );
    assert_eq!(store.size(), 2);
    if let Some(stored) = store.get_mut(10) {
        stored.amount = None;
    }
    assert_eq!(store.get(10).unwrap().amount, None);
    assert!(store.get_mut(99).is_none());
    store.reset();
    assert_eq!(store.size(), 0);
}

#[test]
fn try_process_leaves_the_ledger_alone_where_a_balance_would_not_fit() {
    let mut app = App::new();
    let huge = Transaction {
        kind: TransactionType::Deposit,
        client_id: 1,
        id: 1,
        amount: Amount::new(false, u64::MAX, 1, 0),
    };
    assert_eq!(app.try_process(huge), Some(Ok(huge)));
    assert_eq!(app.try_process(deposit(1, 2, "1")), None);
    assert_eq!(app.transactions_size(), 1);
    assert_eq!(app.get_available_balance(1), huge.amount.unwrap());
    assert_eq!(app.try_process_record(vec!["deposit", "1", "3", "0.5"]), None);
    assert_eq!(app.transactions_size(), 1);
    assert_eq!(
        app.try_process_record(vec!["dispute", "1", "4"]),
        Some(Err(RejectedTransaction::IDNotFound))
    );
    assert_eq!(
        app.try_process_record(vec!["deposit", "1", "x", "0.5"]),
        Some(Err(RejectedTransaction::InvalidInput))
    );
    assert_eq!(
        app.try_process_record(vec!["deposit", "2", "5", "0.5"]),
        Some(Ok(deposit(2, 5, "0.5")))
    );
    assert_eq!(app.transactions_size(), 2);
}
