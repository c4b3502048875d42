// Monetary amounts are in cents: 10000 is 100.00.

use banksystem_rs::bank::Bank;
use banksystem_rs::errors::BankError;
use banksystem_rs::transaction::TransactionType;

#[test]
fn test_transaction_history() {
    let mut bank = Bank::new();
    let customer_id = bank.create_customer(
        "Test User".to_string(),
        "Test Address".to_string(),
        "555-0000".to_string(),
        "test@example.com".to_string(),
    );
    let account_id = bank.create_account(customer_id, "Checking".to_string()).unwrap();

    let account = bank.get_account_mut(account_id).unwrap();
    account.deposit(10000).unwrap();
    account.withdraw(3000).unwrap();

    let history = account.get_history();
    assert_eq!(history.len(), 2);
    assert_eq!(history[0].tx_type, TransactionType::Deposit);
    assert_eq!(history[0].amount, 10000);
    assert_eq!(history[1].tx_type, TransactionType::Withdrawal);
    assert_eq!(history[1].amount, 3000);
}

#[test]
fn test_invalid_operations() {
    let mut bank = Bank::new();
    let customer_id = bank.create_customer(
        "Edge Case".to_string(),
        "Edge Address".to_string(),
        "555-9999".to_string(),
        "edge@example.com".to_string(),
    );
    let account_id = bank.create_account(customer_id, "Checking".to_string()).unwrap();

    let account = bank.get_account_mut(account_id).unwrap();

    // A negative deposit is rejected before any mutation.
    assert_eq!(account.balance, 0);
    assert_eq!(account.deposit(-5000), Err(BankError::InvalidAmount));
    assert_eq!(account.balance, 0);

    // An overdraft is rejected.
    let withdraw_result = account.withdraw(10000);
    assert_eq!(withdraw_result, Err(BankError::InsufficientFunds));
    assert_eq!(account.balance, 0);

    // Valid operations still work after invalid ones.
    account.deposit(10000).unwrap();
    assert_eq!(account.balance, 10000);
    let withdraw_result = account.withdraw(5000);
    assert!(withdraw_result.is_ok());
    assert_eq!(account.balance, 5000);
}

#[test]
fn test_account_types() {
    let mut bank = Bank::new();
    let customer_id = bank.create_customer(
        "Type Test".to_string(),
        "Type Address".to_string(),
        "555-8888".to_string(),
        "type@example.com".to_string(),
    );

    let checking_id = bank.create_account(customer_id, "Checking".to_string()).unwrap();
    let savings_id = bank.create_account(customer_id, "Savings".to_string()).unwrap();
    let credit_id = bank.create_account(customer_id, "Credit".to_string()).unwrap();

    assert_eq!(bank.get_account(checking_id).unwrap().account_type, "Checking");
    assert_eq!(bank.get_account(savings_id).unwrap().account_type, "Savings");
    assert_eq!(bank.get_account(credit_id).unwrap().account_type, "Credit");
}

#[test]
fn test_transfer_validation() {
    let mut bank = Bank::new();
    let customer_id = bank.create_customer(
        "Transfer Test".to_string(),
        "Transfer Address".to_string(),
        "555-7777".to_string(),
        "transfer@example.com".to_string(),
    );

    let account1_id = bank.create_account(customer_id, "Checking".to_string()).unwrap();
    let account2_id = bank.create_account(customer_id, "Savings".to_string()).unwrap();

    bank.get_account_mut(account1_id).unwrap().deposit(10000).unwrap();

    // A transfer with insufficient funds changes neither account.
    let result = bank.transfer(account1_id, account2_id, 15000);
    assert_eq!(result, Err(BankError::InsufficientFunds));
    assert_eq!(bank.get_account(account1_id).unwrap().balance, 10000);
    assert_eq!(bank.get_account(account2_id).unwrap().balance, 0);

    // A covered transfer moves the amount.
    let result = bank.transfer(account1_id, account2_id, 5000);
    assert!(result.is_ok());
    assert_eq!(bank.get_account(account1_id).unwrap().balance, 5000);
    assert_eq!(bank.get_account(account2_id).unwrap().balance, 5000);
}
