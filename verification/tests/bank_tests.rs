// Monetary amounts are in cents: 10000 is 100.00.

use banksystem_rs::bank::Bank;

#[test]
fn test_account_creation() {
    let mut bank = Bank::new();
    let customer_id = bank.create_customer(
        "Alice".to_string(),
        "1 First St".to_string(),
        "555-0001".to_string(),
        "alice@example.com".to_string(),
    );
    let id = bank.create_account(customer_id, "Checking".to_string()).unwrap();
    assert_eq!(id, 1);
    let account = bank.get_account(id).unwrap();
    assert_eq!(account.name, "Checking Account");
    assert_eq!(account.balance, 0);
}

#[test]
fn test_deposit() {
    let mut bank = Bank::new();
    let customer_id = bank.create_customer(
        "Bob".to_string(),
        "2 Second St".to_string(),
        "555-0002".to_string(),
        "bob@example.com".to_string(),
    );
    let id = bank.create_account(customer_id, "Checking".to_string()).unwrap();
    let acc = bank.get_account_mut(id).unwrap();
    acc.deposit(10000).unwrap();
    assert_eq!(acc.balance, 10000);
}

#[test]
fn test_withdrawal() {
    let mut bank = Bank::new();
    let customer_id = bank.create_customer(
        "Carol".to_string(),
        "3 Third St".to_string(),
        "555-0003".to_string(),
        "carol@example.com".to_string(),
    );
    let id = bank.create_account(customer_id, "Checking".to_string()).unwrap();
    let acc = bank.get_account_mut(id).unwrap();
    acc.deposit(10000).unwrap();
    let result = acc.withdraw(4000);
    assert!(result.is_ok());
    assert_eq!(acc.balance, 6000);
    let fail = acc.withdraw(10000);
    assert!(fail.is_err());
    assert_eq!(acc.balance, 6000);
}

#[test]
fn test_transfer() {
    let mut bank = Bank::new();
    let dave = bank.create_customer(
        "Dave".to_string(),
        "4 Fourth St".to_string(),
        "555-0004".to_string(),
        "dave@example.com".to_string(),
    );
    let eve = bank.create_customer(
        "Eve".to_string(),
        "5 Fifth St".to_string(),
        "555-0005".to_string(),
        "eve@example.com".to_string(),
    );
    let id1 = bank.create_account(dave, "Checking".to_string()).unwrap();
    let id2 = bank.create_account(eve, "Checking".to_string()).unwrap();
    bank.get_account_mut(id1).unwrap().deposit(20000).unwrap();
    let result = bank.transfer(id1, id2, 5000);
    assert!(result.is_ok());
    assert_eq!(bank.get_account(id1).unwrap().balance, 15000);
    assert_eq!(bank.get_account(id2).unwrap().balance, 5000);
}
