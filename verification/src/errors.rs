//! The outcomes a ledger operation can report instead of succeeding.

use vstd::prelude::*;

verus! {

/// Why a ledger operation was refused. Every variant is reported to the
/// caller as a value; no operation aborts the process.
#[derive(Clone, Copy, Debug, PartialEq, Eq, Structural)]
pub enum BankError {
    /// `create_account` named a customer id that the ledger does not know.
    CustomerNotFound,
    /// A mutation named an account id that the ledger does not know.
    AccountNotFound,
    /// A withdrawal or transfer debit exceeded the current balance.
    InsufficientFunds,
    /// A negative amount was passed to a deposit, withdrawal or transfer.
    InvalidAmount,
    /// A transfer named the same account as source and destination.
    SelfTransfer,
}

impl BankError {
    /// A short description of the error, for the presentation layer.
    pub fn message(&self) -> (r: &'static str)
        ensures
            r@ == self.spec_message(),
    {
        match self {
            BankError::CustomerNotFound => "customer not found",
            BankError::AccountNotFound => "account not found",
            BankError::InsufficientFunds => "insufficient funds",
            BankError::InvalidAmount => "invalid amount",
            BankError::SelfTransfer => "cannot transfer to the same account",
        }
    }

    pub open spec fn spec_message(&self) -> Seq<char> {
        match self {
            BankError::CustomerNotFound => "customer not found"@,
            BankError::AccountNotFound => "account not found"@,
            BankError::InsufficientFunds => "insufficient funds"@,
            BankError::InvalidAmount => "invalid amount"@,
            BankError::SelfTransfer => "cannot transfer to the same account"@,
        }
    }
}

} // verus!
