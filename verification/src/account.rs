//! A balance-bearing entity belonging to one customer, with an append-only
//! transaction history.

use crate::errors::BankError;
use crate::transaction::{appended, sum_effects, Transaction, TransactionType};
use vstd::prelude::*;

verus! {

/// An account: identity, a back-reference to the owning customer, display
/// metadata, a balance in cents, and the ordered history of every event that
/// moved the balance (oldest first).
#[derive(Clone, Debug)]
pub struct Account {
    pub id: u64,
    pub customer_id: u64,
    pub name: String,
    pub account_type: String,
    pub balance: i64,
    pub history: Vec<Transaction>,
}

impl Account {
    /// Well-formedness: the balance is never negative, every recorded amount
    /// is a non-negative magnitude, and the balance equals the algebraic sum
    /// of the history's effects — at every observable point, not just after a
    /// full operation.
    pub open spec fn wf(&self) -> bool {
        &&& self.balance >= 0
        &&& self.balance as int == sum_effects(self.history@)
        &&& forall|i: int|
            0 <= i < self.history@.len() ==> (#[trigger] self.history@[i]).amount >= 0
                && self.history@[i].timestamp >= 0
    }

    /// The fields that no account operation may change.
    pub open spec fn same_identity(&self, other: &Account) -> bool {
        &&& self.id == other.id
        &&& self.customer_id == other.customer_id
        &&& self.name@ == other.name@
        &&& self.account_type@ == other.account_type@
    }

    /// A fresh account: zero balance, empty history.
    pub fn new(id: u64, customer_id: u64, name: String, account_type: String) -> (r: Account)
        ensures
            r.wf(),
            r.id == id,
            r.customer_id == customer_id,
            r.name@ == name@,
            r.account_type@ == account_type@,
            r.balance == 0,
            r.history@ =~= Seq::<Transaction>::empty(),
    {
        Account { id, customer_id, name, account_type, balance: 0, history: Vec::new() }
    }

    /// Adds `amount` to the balance and appends a `Deposit` entry. A negative
    /// amount is rejected with `InvalidAmount` before any mutation; silently
    /// decreasing the balance through a "deposit" is never allowed.
    pub fn deposit(&mut self, amount: i64) -> (r: Result<(), BankError>)
        requires
            old(self).wf(),
            amount >= 0 ==> old(self).balance + amount <= i64::MAX,
        ensures
            final(self).wf(),
            final(self).same_identity(old(self)),
            amount < 0 ==> r == Err::<(), BankError>(BankError::InvalidAmount)
                && *final(self) == *old(self),
            amount >= 0 ==> r == Ok::<(), BankError>(())
                && final(self).balance == old(self).balance + amount
                && appended(
                old(self).history@,
                final(self).history@,
                TransactionType::Deposit,
                amount,
            ),
    {
        if amount < 0 {
            return Err(BankError::InvalidAmount);
        }
        self.balance = self.balance + amount;
        let t = Transaction::new(TransactionType::Deposit, amount);
        self.history.push(t);
        proof {
            assert(self.history@.drop_last() =~= old(self).history@);
            assert(self.history@.subrange(0, old(self).history@.len() as int) =~= old(
                self,
            ).history@);
        }
        Ok(())
    }

    /// Subtracts `amount` from the balance and appends a `Withdrawal` entry.
    /// A negative amount is rejected with `InvalidAmount`; an amount above
    /// the balance with `InsufficientFunds`. On either failure balance and
    /// history are untouched.
    pub fn withdraw(&mut self, amount: i64) -> (r: Result<(), BankError>)
        requires
            old(self).wf(),
        ensures
            final(self).wf(),
            final(self).same_identity(old(self)),
            amount < 0 ==> r == Err::<(), BankError>(BankError::InvalidAmount)
                && *final(self) == *old(self),
            amount >= 0 && amount > old(self).balance ==> r == Err::<(), BankError>(
                BankError::InsufficientFunds,
            ) && *final(self) == *old(self),
            0 <= amount <= old(self).balance ==> r == Ok::<(), BankError>(())
                && final(self).balance == old(self).balance - amount
                && appended(
                old(self).history@,
                final(self).history@,
                TransactionType::Withdrawal,
                amount,
            ),
    {
        if amount < 0 {
            return Err(BankError::InvalidAmount);
        }
        if amount > self.balance {
            return Err(BankError::InsufficientFunds);
        }
        self.balance = self.balance - amount;
        let t = Transaction::new(TransactionType::Withdrawal, amount);
        self.history.push(t);
        proof {
            assert(self.history@.drop_last() =~= old(self).history@);
            assert(self.history@.subrange(0, old(self).history@.len() as int) =~= old(
                self,
            ).history@);
        }
        Ok(())
    }

    /// Moves `amount` from this account to `to`: all or nothing. On success
    /// the debit is recorded here as one `Transfer` entry carrying the
    /// receiving account's id, and the credit there as a plain `Deposit` with
    /// no counterparty — one entry per side, rather than a separate
    /// withdrawal-plus-marker pair on the debit side, so that every entry
    /// carries exactly its signed effect. On any failure both accounts are
    /// untouched. Rejecting a self-transfer is the caller's duty: through two
    /// `&mut` handles the accounts are necessarily distinct, which the id
    /// precondition records.
    pub fn transfer(&mut self, amount: i64, to: &mut Account) -> (r: Result<(), BankError>)
        requires
            old(self).wf(),
            old(to).wf(),
            old(self).id != old(to).id,
            0 <= amount <= old(self).balance ==> old(to).balance + amount <= i64::MAX,
        ensures
            final(self).wf(),
            final(to).wf(),
            final(self).same_identity(old(self)),
            final(to).same_identity(old(to)),
            amount < 0 ==> r == Err::<(), BankError>(BankError::InvalidAmount)
                && *final(self) == *old(self) && *final(to) == *old(to),
            amount >= 0 && amount > old(self).balance ==> r == Err::<(), BankError>(
                BankError::InsufficientFunds,
            ) && *final(self) == *old(self) && *final(to) == *old(to),
            0 <= amount <= old(self).balance ==> r == Ok::<(), BankError>(())
                && final(self).balance == old(self).balance - amount && final(to).balance == old(
                to,
            ).balance + amount && appended(
                old(self).history@,
                final(self).history@,
                TransactionType::Transfer { to_account: old(to).id },
                amount,
            ) && appended(old(to).history@, final(to).history@, TransactionType::Deposit, amount),
    {
        if amount < 0 {
            return Err(BankError::InvalidAmount);
        }
        if amount > self.balance {
            return Err(BankError::InsufficientFunds);
        }
        self.balance = self.balance - amount;
        let t = Transaction::new(TransactionType::Transfer { to_account: to.id }, amount);
        self.history.push(t);
        proof {
            assert(self.history@.drop_last() =~= old(self).history@);
            assert(self.history@.subrange(0, old(self).history@.len() as int) =~= old(
                self,
            ).history@);
        }
        let dep = to.deposit(amount);
        proof {
            assert(dep == Ok::<(), BankError>(()));
        }
        Ok(())
    }

    /// The ordered, read-only history: insertion order is chronological
    /// order.
    pub fn get_history(&self) -> (r: &Vec<Transaction>)
        ensures
            r@ == self.history@,
    {
        &self.history
    }
}

} // verus!
