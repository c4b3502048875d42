// Monetary amounts are in cents: 20000 is 200.00.

use banksystem_rs::account::Account;
use banksystem_rs::bank::Bank;
use banksystem_rs::errors::BankError;
use banksystem_rs::transaction::{Transaction, TransactionType};

fn sum_of_effects(history: &[Transaction]) -> i64 {
    history
        .iter()
        .map(|t| match t.tx_type {
            TransactionType::Deposit => t.amount,
            TransactionType::Withdrawal => -t.amount,
            TransactionType::Transfer { .. } => -t.amount,
        })
        .sum()
}

#[test]
fn scenario_two_customers_transfer() {
    // Create Dave and Eve, a checking account for each (account ids 1 and 2:
    // accounts draw from their own counter), deposit 200.00 into account 1,
    // transfer 50.00 to account 2.
    let mut bank = Bank::new();
    let dave = bank.create_customer(
        "Dave".to_string(),
        "4 Fourth St".to_string(),
        "555-0004".to_string(),
        "dave@example.com".to_string(),
    );
    let eve = bank.create_customer(
        "Eve".to_string(),
        "5 Fifth St".to_string(),
        "555-0005".to_string(),
        "eve@example.com".to_string(),
    );
    let acc1 = bank.create_account(dave, "Checking".to_string()).unwrap();
    let acc2 = bank.create_account(eve, "Checking".to_string()).unwrap();
    assert_eq!(acc1, 1);
    assert_eq!(acc2, 2);
    assert!(bank.deposit(acc1, 20000).is_ok());
    let result = bank.transfer(acc1, acc2, 5000);
    assert!(result.is_ok());
    assert_eq!(bank.get_account(acc1).unwrap().balance, 15000);
    assert_eq!(bank.get_account(acc2).unwrap().balance, 5000);
}

#[test]
fn scenario_overdraft_on_new_account() {
    // A withdrawal of 100.00 from a zero balance fails and leaves 0.00.
    let mut bank = Bank::new();
    let c = bank.create_customer(
        "Fay".to_string(),
        "6 Sixth St".to_string(),
        "555-0006".to_string(),
        "fay@example.com".to_string(),
    );
    let id = bank.create_account(c, "Checking".to_string()).unwrap();
    assert_eq!(bank.withdraw(id, 10000), Err(BankError::InsufficientFunds));
    assert_eq!(bank.get_account(id).unwrap().balance, 0);
    assert!(bank.get_account(id).unwrap().get_history().is_empty());
}

#[test]
fn scenario_history_order() {
    // Deposit 100.00 then withdraw 30.00: exactly two entries, in that
    // order, with those amounts and kinds.
    let mut bank = Bank::new();
    let c = bank.create_customer(
        "Gil".to_string(),
        "7 Seventh St".to_string(),
        "555-0007".to_string(),
        "gil@example.com".to_string(),
    );
    let id = bank.create_account(c, "Checking".to_string()).unwrap();
    assert!(bank.deposit(id, 10000).is_ok());
    assert!(bank.withdraw(id, 3000).is_ok());
    let account = bank.get_account(id).unwrap();
    let history = account.get_history();
    assert_eq!(history.len(), 2);
    assert_eq!(history[0].tx_type, TransactionType::Deposit);
    assert_eq!(history[0].amount, 10000);
    assert_eq!(history[1].tx_type, TransactionType::Withdrawal);
    assert_eq!(history[1].amount, 3000);
    assert!(history[0].timestamp >= 0);
}

#[test]
fn scenario_list_customer_accounts_in_order() {
    // Two accounts for one customer come back exactly, in creation order.
    let mut bank = Bank::new();
    let c = bank.create_customer(
        "Hal".to_string(),
        "8 Eighth St".to_string(),
        "555-0008".to_string(),
        "hal@example.com".to_string(),
    );
    let other = bank.create_customer(
        "Ida".to_string(),
        "9 Ninth St".to_string(),
        "555-0009".to_string(),
        "ida@example.com".to_string(),
    );
    let checking = bank.create_account(c, "Checking".to_string()).unwrap();
    let noise = bank.create_account(other, "Checking".to_string()).unwrap();
    let savings = bank.create_account(c, "Savings".to_string()).unwrap();
    assert_ne!(noise, checking);
    let accounts = bank.list_customer_accounts(c);
    assert_eq!(accounts.len(), 2);
    assert_eq!(accounts[0].id, checking);
    assert_eq!(accounts[0].account_type, "Checking");
    assert_eq!(accounts[1].id, savings);
    assert_eq!(accounts[1].account_type, "Savings");
}

#[test]
fn create_account_unknown_customer_creates_nothing() {
    let mut bank = Bank::new();
    let result = bank.create_account(7, "Checking".to_string());
    assert_eq!(result, Err(BankError::CustomerNotFound));
    assert!(bank.list_accounts().is_empty());
}

#[test]
fn transfer_error_cases() {
    let mut bank = Bank::new();
    let c = bank.create_customer(
        "Joy".to_string(),
        "10 Tenth St".to_string(),
        "555-0010".to_string(),
        "joy@example.com".to_string(),
    );
    let a = bank.create_account(c, "Checking".to_string()).unwrap();
    let b = bank.create_account(c, "Savings".to_string()).unwrap();
    assert!(bank.deposit(a, 5000).is_ok());

    assert_eq!(bank.transfer(a, a, 100), Err(BankError::SelfTransfer));
    assert_eq!(bank.transfer(a, 99, 100), Err(BankError::AccountNotFound));
    assert_eq!(bank.transfer(99, b, 100), Err(BankError::AccountNotFound));
    assert_eq!(bank.transfer(a, b, -1), Err(BankError::InvalidAmount));
    assert_eq!(bank.transfer(a, b, 5001), Err(BankError::InsufficientFunds));

    // Nothing moved.
    assert_eq!(bank.get_account(a).unwrap().balance, 5000);
    assert_eq!(bank.get_account(b).unwrap().balance, 0);
    assert_eq!(bank.get_account(a).unwrap().get_history().len(), 1);
    assert!(bank.get_account(b).unwrap().get_history().is_empty());
}

#[test]
fn deposit_and_withdraw_error_cases() {
    let mut bank = Bank::new();
    assert_eq!(bank.deposit(1, 100), Err(BankError::AccountNotFound));
    assert_eq!(bank.withdraw(1, 100), Err(BankError::AccountNotFound));
    let c = bank.create_customer(
        "Kim".to_string(),
        "11 Eleventh St".to_string(),
        "555-0011".to_string(),
        "kim@example.com".to_string(),
    );
    let id = bank.create_account(c, "Checking".to_string()).unwrap();
    assert_eq!(bank.deposit(id, -1), Err(BankError::InvalidAmount));
    assert_eq!(bank.withdraw(id, -1), Err(BankError::InvalidAmount));
    assert_eq!(bank.get_account(id).unwrap().balance, 0);
}

#[test]
fn balance_is_sum_of_history_effects() {
    let mut bank = Bank::new();
    let c = bank.create_customer(
        "Lee".to_string(),
        "12 Twelfth St".to_string(),
        "555-0012".to_string(),
        "lee@example.com".to_string(),
    );
    let a = bank.create_account(c, "Checking".to_string()).unwrap();
    let b = bank.create_account(c, "Savings".to_string()).unwrap();
    assert!(bank.deposit(a, 12345).is_ok());
    assert!(bank.withdraw(a, 2345).is_ok());
    assert!(bank.transfer(a, b, 4000).is_ok());
    assert!(bank.deposit(b, 7).is_ok());
    for id in [a, b] {
        let account = bank.get_account(id).unwrap();
        assert_eq!(account.balance, sum_of_effects(account.get_history()));
    }
    assert_eq!(bank.get_account(a).unwrap().balance, 6000);
    assert_eq!(bank.get_account(b).unwrap().balance, 4007);
}

#[test]
fn transfer_history_entries_match() {
    // The debiting account records one Transfer entry naming the receiver;
    // the receiving account records a plain Deposit of the same amount.
    let mut from = Account::new(1, 1, "A".to_string(), "Checking".to_string());
    let mut to = Account::new(2, 1, "B".to_string(), "Savings".to_string());
    from.deposit(900).unwrap();
    assert!(from.transfer(250, &mut to).is_ok());
    assert_eq!(from.balance, 650);
    assert_eq!(to.balance, 250);
    let from_history = from.get_history();
    assert_eq!(from_history.len(), 2);
    assert_eq!(from_history[1].tx_type, TransactionType::Transfer { to_account: 2 });
    assert_eq!(from_history[1].amount, 250);
    let to_history = to.get_history();
    assert_eq!(to_history.len(), 1);
    assert_eq!(to_history[0].tx_type, TransactionType::Deposit);
    assert_eq!(to_history[0].amount, 250);

    // A failed transfer appends nothing on either side.
    assert_eq!(from.transfer(10000, &mut to), Err(BankError::InsufficientFunds));
    assert_eq!(from.get_history().len(), 2);
    assert_eq!(to.get_history().len(), 1);
}

#[test]
fn ids_are_unique_and_increasing() {
    let mut bank = Bank::new();
    let mut customer_ids = Vec::new();
    for i in 0..5u32 {
        let id = bank.create_customer(
            format!("Customer {}", i),
            "Somewhere".to_string(),
            "555-0000".to_string(),
            "someone@example.com".to_string(),
        );
        customer_ids.push(id);
    }
    let mut account_ids = Vec::new();
    for &c in &customer_ids {
        account_ids.push(bank.create_account(c, "Checking".to_string()).unwrap());
        account_ids.push(bank.create_account(c, "Savings".to_string()).unwrap());
    }
    for i in 0..customer_ids.len() {
        for j in (i + 1)..customer_ids.len() {
            assert_ne!(customer_ids[i], customer_ids[j]);
        }
        if i + 1 < customer_ids.len() {
            assert!(customer_ids[i] < customer_ids[i + 1]);
        }
    }
    for i in 0..account_ids.len() {
        for j in (i + 1)..account_ids.len() {
            assert_ne!(account_ids[i], account_ids[j]);
        }
        if i + 1 < account_ids.len() {
            assert!(account_ids[i] < account_ids[i + 1]);
        }
    }
}

#[test]
fn error_messages() {
    assert_eq!(BankError::CustomerNotFound.message(), "customer not found");
    assert_eq!(BankError::AccountNotFound.message(), "account not found");
    assert_eq!(BankError::InsufficientFunds.message(), "insufficient funds");
    assert_eq!(BankError::InvalidAmount.message(), "invalid amount");
    assert_eq!(BankError::SelfTransfer.message(), "cannot transfer to the same account");
}
