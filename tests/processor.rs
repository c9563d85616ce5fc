use toy_payments::{Account, Amount, PaymentProcessor, Transaction, TransactionType};

/// Scales a decimal value to an amount, dropping digits past the fourth.
fn decimal(value: f64) -> Amount {
    Amount::from_scaled((value * 10000.0) as i64)
}

fn account_of(processor: &PaymentProcessor, client_id: u16) -> Account {
    processor.account(client_id).unwrap()
}

fn apply(processor: &mut PaymentProcessor, transaction: Transaction) {
    assert!(processor.can_process(&transaction));
    processor.process(&transaction);
}

#[test]
fn test_deposit_only() {
    let mut processor = PaymentProcessor::new();

    apply(&mut processor, Transaction::new(TransactionType::Deposit, 1, 1, Amount::from(1)));
    apply(&mut processor, Transaction::new(TransactionType::Deposit, 1, 2, Amount::from(2)));

    let account = account_of(&processor, 1);
    assert_eq!(account.available_funds, Amount::from(3));
    assert_eq!(account.held_funds, Amount::from(0));
}

#[test]
fn test_withdraw() {
    let mut processor = PaymentProcessor::new();

    apply(&mut processor, Transaction::new(TransactionType::Deposit, 1, 1, Amount::from(5)));
    apply(&mut processor, Transaction::new(TransactionType::Withdrawal, 1, 2, decimal(1.5)));

    let account = account_of(&processor, 1);
    assert_eq!(account.available_funds, decimal(3.5));
    assert_eq!(account.held_funds, Amount::from(0));
}

#[test]
fn test_withdrawal_insufficient_funds() {
    let mut processor = PaymentProcessor::new();

    apply(&mut processor, Transaction::new(TransactionType::Deposit, 1, 1, Amount::from(10)));
    apply(&mut processor, Transaction::new(TransactionType::Withdrawal, 1, 2, Amount::from(15)));

    let account = account_of(&processor, 1);
    assert_eq!(account.available_funds, Amount::from(10));
    assert_eq!(account.held_funds, Amount::from(0));
}

#[test]
fn test_withdraw_deposit() {
    let mut processor = PaymentProcessor::new();

    apply(&mut processor, Transaction::new(TransactionType::Deposit, 1, 1, Amount::from(1)));
    apply(&mut processor, Transaction::new(TransactionType::Deposit, 1, 2, Amount::from(2)));
    apply(&mut processor, Transaction::new(TransactionType::Withdrawal, 1, 3, decimal(1.5)));
    apply(&mut processor, Transaction::new(TransactionType::Deposit, 1, 4, decimal(0.5)));
    apply(&mut processor, Transaction::new(TransactionType::Withdrawal, 1, 5, decimal(0.8)));

    let account = account_of(&processor, 1);
    assert_eq!(account.available_funds, decimal(1.2));
    assert_eq!(account.held_funds, Amount::from(0));
}

#[test]
fn test_deposit_withdraw_dispute() {
    let mut processor = PaymentProcessor::new();

    apply(&mut processor, Transaction::new(TransactionType::Deposit, 1, 1, Amount::from(10)));
    apply(&mut processor, Transaction::new(TransactionType::Withdrawal, 1, 2, Amount::from(3)));
    apply(&mut processor, Transaction::new(TransactionType::Dispute, 1, 2, Amount::from(0)));

    let account = account_of(&processor, 1);
    assert_eq!(account.available_funds, Amount::from(10));
    // Negative since a withdrawal is held back
    assert_eq!(account.held_funds, -Amount::from(3));
}

#[test]
fn test_deposit_dispute() {
    let mut processor = PaymentProcessor::new();

    apply(&mut processor, Transaction::new(TransactionType::Deposit, 1, 1, Amount::from(10)));
    apply(&mut processor, Transaction::new(TransactionType::Dispute, 1, 1, Amount::from(0)));

    let account = account_of(&processor, 1);
    assert_eq!(account.available_funds, Amount::from(0));
    assert_eq!(account.held_funds, Amount::from(10));
}

#[test]
fn test_deposit_dispute_resolve() {
    let mut processor = PaymentProcessor::new();

    apply(&mut processor, Transaction::new(TransactionType::Deposit, 1, 1, Amount::from(10)));
    apply(&mut processor, Transaction::new(TransactionType::Dispute, 1, 1, Amount::from(0)));
    apply(&mut processor, Transaction::new(TransactionType::Resolve, 1, 1, Amount::from(0)));

    let account = account_of(&processor, 1);
    assert_eq!(account.available_funds, Amount::from(10));
    assert_eq!(account.held_funds, Amount::from(0));
}

#[test]
fn test_deposit_dispute_chargeback() {
    let mut processor = PaymentProcessor::new();

    apply(&mut processor, Transaction::new(TransactionType::Deposit, 1, 1, Amount::from(10)));
    apply(&mut processor, Transaction::new(TransactionType::Dispute, 1, 1, Amount::from(0)));
    apply(&mut processor, Transaction::new(TransactionType::Chargeback, 1, 1, Amount::from(0)));

    let account = account_of(&processor, 1);
    assert_eq!(account.available_funds, Amount::from(0));
    assert_eq!(account.held_funds, Amount::from(0));
    assert_eq!(account.is_locked, true);
}

#[test]
fn test_deposit_withdraw_deposit_dispute_withdrawal_chargeback() {
    let mut processor = PaymentProcessor::new();

    apply(&mut processor, Transaction::new(TransactionType::Deposit, 1, 1, Amount::from(100)));
    apply(&mut processor, Transaction::new(TransactionType::Withdrawal, 1, 2, Amount::from(20)));
    apply(&mut processor, Transaction::new(TransactionType::Deposit, 1, 3, Amount::from(50)));
    apply(&mut processor, Transaction::new(TransactionType::Dispute, 1, 2, Amount::from(0)));
    apply(&mut processor, Transaction::new(TransactionType::Chargeback, 1, 2, Amount::from(0)));

    let account = account_of(&processor, 1);
    assert_eq!(account.available_funds, Amount::from(150));
    assert_eq!(account.held_funds, Amount::from(0));
    assert_eq!(account.is_locked, true);
}

#[test]
fn test_invalid_transaction_id_no_state_change() {
    let transaction_types = vec![
        TransactionType::Dispute,
        TransactionType::Resolve,
        TransactionType::Chargeback,
    ];

    for tx_type in transaction_types {
        let mut processor = PaymentProcessor::new();

        apply(&mut processor, Transaction::new(TransactionType::Deposit, 1, 1, Amount::from(100)));

        let account_before = account_of(&processor, 1);
        let available_before = account_before.available_funds;
        let held_before = account_before.held_funds;

        apply(&mut processor, Transaction::new(tx_type, 1, 999, Amount::from(0)));

        let account_after = account_of(&processor, 1);
        assert_eq!(account_after.available_funds, available_before);
        assert_eq!(account_after.held_funds, held_before);
    }
}
