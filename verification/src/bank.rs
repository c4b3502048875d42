//! The ledger: sole factory and directory for customers and accounts.
//!
//! Customer ids and account ids are drawn from two independent counters, one
//! per entity kind; ids are unique within each kind and strictly increasing
//! in assignment order.

use crate::account::Account;
use crate::customer::Customer;
use crate::errors::BankError;
use crate::textops::push_str;
use crate::transaction::{appended, TransactionType};
use vstd::prelude::*;

verus! {

/// The aggregate that owns every customer and account and assigns their ids.
pub struct Bank {
    pub customers: Vec<Customer>,
    pub accounts: Vec<Account>,
    pub next_customer_id: u64,
    pub next_account_id: u64,
}

impl Bank {
    /// Some customer carries this id.
    pub open spec fn has_customer(&self, id: u64) -> bool {
        exists|i: int|
            0 <= i < self.customers@.len() && (#[trigger] self.customers@[i]).id == id
    }

    /// The position of the customer carrying `id`; meaningful only when
    /// `has_customer(id)` holds, and then unique by well-formedness.
    pub open spec fn customer_index(&self, id: u64) -> int {
        choose|i: int|
            0 <= i < self.customers@.len() && (#[trigger] self.customers@[i]).id == id
    }

    /// The customer carrying `id`; meaningful only when `has_customer(id)`.
    pub open spec fn spec_customer(&self, id: u64) -> Customer {
        self.customers@[self.customer_index(id)]
    }

    /// Some account carries this id.
    pub open spec fn has_account(&self, id: u64) -> bool {
        exists|i: int| 0 <= i < self.accounts@.len() && (#[trigger] self.accounts@[i]).id == id
    }

    /// The position of the account carrying `id`; meaningful only when
    /// `has_account(id)` holds, and then unique by well-formedness.
    pub open spec fn account_index(&self, id: u64) -> int {
        choose|i: int| 0 <= i < self.accounts@.len() && (#[trigger] self.accounts@[i]).id == id
    }

    /// The account carrying `id`; meaningful only when `has_account(id)`.
    pub open spec fn spec_account(&self, id: u64) -> Account {
        self.accounts@[self.account_index(id)]
    }

    /// Well-formedness of the whole ledger:
    /// - every account is well-formed (balance non-negative and equal to the
    ///   sum of its history's effects);
    /// - customer ids are pairwise distinct, and so are account ids;
    /// - every id ever assigned lies below the counter it was drawn from, so
    ///   a fresh id collides with nothing;
    /// - every account's `customer_id` names a customer that exists.
    pub open spec fn wf(&self) -> bool {
        &&& forall|i: int| 0 <= i < self.accounts@.len() ==> (#[trigger] self.accounts@[i]).wf()
        &&& forall|i: int, j: int|
            0 <= i < j < self.accounts@.len() ==> (#[trigger] self.accounts@[i]).id != (
            #[trigger] self.accounts@[j]).id
        &&& forall|i: int, j: int|
            0 <= i < j < self.customers@.len() ==> (#[trigger] self.customers@[i]).id != (
            #[trigger] self.customers@[j]).id
        &&& forall|i: int|
            0 <= i < self.accounts@.len() ==> 1 <= (#[trigger] self.accounts@[i]).id
                < self.next_account_id
        &&& forall|i: int|
            0 <= i < self.customers@.len() ==> 1 <= (#[trigger] self.customers@[i]).id
                < self.next_customer_id
        &&& forall|i: int|
            0 <= i < self.accounts@.len() ==> self.has_customer(
                (#[trigger] self.accounts@[i]).customer_id,
            )
        &&& self.next_account_id >= 1
        &&& self.next_customer_id >= 1
    }

    /// An empty ledger; both id counters start at 1.
    pub fn new() -> (r: Bank)
        ensures
            r.wf(),
            r.customers@ =~= Seq::<Customer>::empty(),
            r.accounts@ =~= Seq::<Account>::empty(),
            r.next_customer_id == 1,
            r.next_account_id == 1,
    {
        Bank { customers: Vec::new(), accounts: Vec::new(), next_customer_id: 1, next_account_id: 1 }
    }

    /// Stores a new customer under a fresh id and returns that id. Always
    /// succeeds.
    pub fn create_customer(
        &mut self,
        name: String,
        address: String,
        phone: String,
        email: String,
    ) -> (id: u64)
        requires
            old(self).wf(),
            old(self).next_customer_id < u64::MAX,
        ensures
            final(self).wf(),
            id == old(self).next_customer_id,
            !old(self).has_customer(id),
            final(self).has_customer(id),
            final(self).customers@.len() == old(self).customers@.len() + 1,
            final(self).customers@.subrange(0, old(self).customers@.len() as int) == old(
                self,
            ).customers@,
            final(self).customers@.last().id == id,
            final(self).customers@.last().name@ == name@,
            final(self).customers@.last().address@ == address@,
            final(self).customers@.last().phone@ == phone@,
            final(self).customers@.last().email@ == email@,
            final(self).accounts@ == old(self).accounts@,
            final(self).next_customer_id == old(self).next_customer_id + 1,
            final(self).next_account_id == old(self).next_account_id,
    {
        let id = self.next_customer_id;
        let customer = Customer::new(id, name, address, phone, email);
        self.customers.push(customer);
        self.next_customer_id = id + 1;
        proof {
            assert(self.customers@.subrange(0, old(self).customers@.len() as int) =~= old(
                self,
            ).customers@);
            let n = old(self).customers@.len() as int;
            assert(self.customers@[n].id == id);
            assert forall|i: int|
                0 <= i < self.accounts@.len() implies self.has_customer(
                (#[trigger] self.accounts@[i]).customer_id,
            ) by {
                let w = old(self).customer_index(self.accounts@[i].customer_id);
                assert(self.customers@[w].id == self.accounts@[i].customer_id);
            }
        }
        id
    }

    /// Where the customer carrying `id` sits, by linear scan.
    fn find_customer_index(&self, id: u64) -> (r: Option<usize>)
        requires
            self.wf(),
        ensures
            match r {
                Some(i) => self.has_customer(id) && i < self.customers@.len()
                    && self.customers@[i as int].id == id && self.customer_index(id) == i as int,
                None => !self.has_customer(id),
            },
    {
        let n = self.customers.len();
        let mut i: usize = 0;
        while i < n
            invariant
                self.wf(),
                n == self.customers@.len(),
                i <= n,
                forall|k: int| 0 <= k < i ==> (#[trigger] self.customers@[k]).id != id,
            decreases n - i,
        {
            if self.customers[i].id == id {
                proof {
                    let j = self.customer_index(id);
                    if j != i as int {
                        assert(self.customers@[j].id == id);
                    }
                }
                return Some(i);
            }
            i = i + 1;
        }
        None
    }

    /// Where the account carrying `id` sits, by linear scan.
    fn find_account_index(&self, id: u64) -> (r: Option<usize>)
        requires
            self.wf(),
        ensures
            match r {
                Some(i) => self.has_account(id) && i < self.accounts@.len()
                    && self.accounts@[i as int].id == id && self.account_index(id) == i as int,
                None => !self.has_account(id),
            },
    {
        let n = self.accounts.len();
        let mut i: usize = 0;
        while i < n
            invariant
                self.wf(),
                n == self.accounts@.len(),
                i <= n,
                forall|k: int| 0 <= k < i ==> (#[trigger] self.accounts@[k]).id != id,
            decreases n - i,
        {
            if self.accounts[i].id == id {
                proof {
                    let j = self.account_index(id);
                    if j != i as int {
                        assert(self.accounts@[j].id == id);
                    }
                }
                return Some(i);
            }
            i = i + 1;
        }
        None
    }

    /// Read-only lookup of a customer by id.
    pub fn get_customer(&self, id: u64) -> (r: Option<&Customer>)
        requires
            self.wf(),
        ensures
            match r {
                Some(c) => self.has_customer(id) && *c == self.spec_customer(id),
                None => !self.has_customer(id),
            },
    {
        match self.find_customer_index(id) {
            Some(i) => Some(&self.customers[i]),
            None => None,
        }
    }

    /// Read-only lookup of an account by id.
    pub fn get_account(&self, id: u64) -> (r: Option<&Account>)
        requires
            self.wf(),
        ensures
            match r {
                Some(a) => self.has_account(id) && *a == self.spec_account(id),
                None => !self.has_account(id),
            },
    {
        match self.find_account_index(id) {
            Some(i) => Some(&self.accounts[i]),
            None => None,
        }
    }

    /// All accounts, insertion order.
    pub fn list_accounts(&self) -> (r: &Vec<Account>)
        ensures
            r@ == self.accounts@,
    {
        &self.accounts
    }

    /// All customers, insertion order.
    pub fn list_customers(&self) -> (r: &Vec<Customer>)
        ensures
            r@ == self.customers@,
    {
        &self.customers
    }

    /// Looks up `customer_id`; if it names no customer, fails with
    /// `CustomerNotFound` and creates nothing. Otherwise stores a new account
    /// under a fresh id — zero balance, empty history, display name derived
    /// from the account type — and returns that id.
    pub fn create_account(&mut self, customer_id: u64, account_type: String) -> (r: Result<
        u64,
        BankError,
    >)
        requires
            old(self).wf(),
            old(self).next_account_id < u64::MAX,
        ensures
            final(self).wf(),
            final(self).customers@ == old(self).customers@,
            final(self).next_customer_id == old(self).next_customer_id,
            !old(self).has_customer(customer_id) ==> {
                &&& r == Err::<u64, BankError>(BankError::CustomerNotFound)
                &&& final(self).accounts@ == old(self).accounts@
                &&& final(self).next_account_id == old(self).next_account_id
            },
            old(self).has_customer(customer_id) ==> {
                &&& r == Ok::<u64, BankError>(old(self).next_account_id)
                &&& !old(self).has_account(old(self).next_account_id)
                &&& final(self).has_account(old(self).next_account_id)
                &&& final(self).accounts@.len() == old(self).accounts@.len() + 1
                &&& final(self).accounts@.subrange(0, old(self).accounts@.len() as int) == old(
                    self,
                ).accounts@
                &&& final(self).accounts@.last().id == old(self).next_account_id
                &&& final(self).accounts@.last().customer_id == customer_id
                &&& final(self).accounts@.last().account_type@ == account_type@
                &&& final(self).accounts@.last().name@ == account_type@ + " Account"@
                &&& final(self).accounts@.last().balance == 0
                &&& final(self).accounts@.last().history@ =~= Seq::<
                    crate::transaction::Transaction,
                >::empty()
                &&& final(self).next_account_id == old(self).next_account_id + 1
            },
    {
        if self.find_customer_index(customer_id).is_none() {
            return Err(BankError::CustomerNotFound);
        }
        let id = self.next_account_id;
        let mut name = account_type.clone();
        push_str(&mut name, " Account");
        let account = Account::new(id, customer_id, name, account_type);
        self.accounts.push(account);
        self.next_account_id = id + 1;
        proof {
            assert(self.accounts@.subrange(0, old(self).accounts@.len() as int) =~= old(
                self,
            ).accounts@);
            let n = old(self).accounts@.len() as int;
            assert(self.accounts@[n].id == id);
            assert forall|i: int|
                0 <= i < self.accounts@.len() implies self.has_customer(
                (#[trigger] self.accounts@[i]).customer_id,
            ) by {
                let w = old(self).customer_index(self.accounts@[i].customer_id);
                if i < n {
                    assert(old(self).has_customer(old(self).accounts@[i].customer_id));
                } else {
                    assert(old(self).has_customer(customer_id));
                }
                assert(self.customers@[old(self).customer_index(
                    self.accounts@[i].customer_id,
                )].id == self.accounts@[i].customer_id);
            }
        }
        Ok(id)
    }

    /// Everything except the account list is as it was.
    pub open spec fn same_directory(&self, other: &Bank) -> bool {
        &&& self.customers@ == other.customers@
        &&& self.next_customer_id == other.next_customer_id
        &&& self.next_account_id == other.next_account_id
    }

    /// The account list is as it was except at position `i`, which still
    /// belongs to the same identity.
    pub open spec fn same_accounts_except(&self, other: &Bank, i: int) -> bool {
        &&& self.accounts@.len() == other.accounts@.len()
        &&& forall|k: int|
            0 <= k < self.accounts@.len() && k != i ==> #[trigger] self.accounts@[k]
                == other.accounts@[k]
        &&& self.accounts@[i].same_identity(&other.accounts@[i])
    }

    /// Deposits `amount` into the account carrying `account_id`. Fails with
    /// `AccountNotFound` on an unknown id and with `InvalidAmount` on a
    /// negative amount; on failure nothing changes.
    pub fn deposit(&mut self, account_id: u64, amount: i64) -> (r: Result<(), BankError>)
        requires
            old(self).wf(),
            old(self).has_account(account_id) && amount >= 0 ==> old(self).spec_account(
                account_id,
            ).balance + amount <= i64::MAX,
        ensures
            final(self).wf(),
            final(self).same_directory(old(self)),
            !old(self).has_account(account_id) ==> r == Err::<(), BankError>(
                BankError::AccountNotFound,
            ) && final(self).accounts@ == old(self).accounts@,
            old(self).has_account(account_id) && amount < 0 ==> r == Err::<(), BankError>(
                BankError::InvalidAmount,
            ) && final(self).accounts@ == old(self).accounts@,
            old(self).has_account(account_id) && amount >= 0 ==> ({
                let i = old(self).account_index(account_id);
                &&& r == Ok::<(), BankError>(())
                &&& final(self).same_accounts_except(old(self), i)
                &&& final(self).accounts@[i].balance == old(self).accounts@[i].balance + amount
                &&& appended(
                    old(self).accounts@[i].history@,
                    final(self).accounts@[i].history@,
                    TransactionType::Deposit,
                    amount,
                )
            }),
    {
        let i = match self.find_account_index(account_id) {
            None => {
                return Err(BankError::AccountNotFound);
            },
            Some(i) => i,
        };
        if amount < 0 {
            return Err(BankError::InvalidAmount);
        }
        let mut acc = self.accounts.remove(i);
        let res = acc.deposit(amount);
        proof {
            assert(res == Ok::<(), BankError>(()));
        }
        self.accounts.insert(i, acc);
        proof {
            assert(self.accounts@ =~= old(self).accounts@.update(
                i as int,
                self.accounts@[i as int],
            ));
            self.lemma_wf_after_update(old(self), i as int);
        }
        Ok(())
    }

    /// Withdraws `amount` from the account carrying `account_id`. Fails with
    /// `AccountNotFound` on an unknown id, `InvalidAmount` on a negative
    /// amount, `InsufficientFunds` when the amount exceeds the balance; on
    /// failure nothing changes.
    pub fn withdraw(&mut self, account_id: u64, amount: i64) -> (r: Result<(), BankError>)
        requires
            old(self).wf(),
        ensures
            final(self).wf(),
            final(self).same_directory(old(self)),
            !old(self).has_account(account_id) ==> r == Err::<(), BankError>(
                BankError::AccountNotFound,
            ) && final(self).accounts@ == old(self).accounts@,
            old(self).has_account(account_id) && amount < 0 ==> r == Err::<(), BankError>(
                BankError::InvalidAmount,
            ) && final(self).accounts@ == old(self).accounts@,
            old(self).has_account(account_id) && amount >= 0 && amount > old(self).spec_account(
                account_id,
            ).balance ==> r == Err::<(), BankError>(BankError::InsufficientFunds)
                && final(self).accounts@ == old(self).accounts@,
            old(self).has_account(account_id) && 0 <= amount <= old(self).spec_account(
                account_id,
            ).balance ==> ({
                let i = old(self).account_index(account_id);
                &&& r == Ok::<(), BankError>(())
                &&& final(self).same_accounts_except(old(self), i)
                &&& final(self).accounts@[i].balance == old(self).accounts@[i].balance - amount
                &&& appended(
                    old(self).accounts@[i].history@,
                    final(self).accounts@[i].history@,
                    TransactionType::Withdrawal,
                    amount,
                )
            }),
    {
        let i = match self.find_account_index(account_id) {
            None => {
                return Err(BankError::AccountNotFound);
            },
            Some(i) => i,
        };
        let mut acc = self.accounts.remove(i);
        let res = acc.withdraw(amount);
        self.accounts.insert(i, acc);
        proof {
            if res is Err {
                assert(self.accounts@ =~= old(self).accounts@);
            } else {
                assert(self.accounts@ =~= old(self).accounts@.update(
                    i as int,
                    self.accounts@[i as int],
                ));
            }
            self.lemma_wf_after_update(old(self), i as int);
        }
        match res {
            Ok(()) => Ok(()),
            Err(e) => Err(e),
        }
    }

    /// In a well-formed ledger the ids it assigned are pairwise unique:
    /// no two customers share an id, and no two accounts share an id.
    pub proof fn lemma_ids_pairwise_unique(&self)
        requires
            self.wf(),
        ensures
            forall|i: int, j: int|
                0 <= i < self.accounts@.len() && 0 <= j < self.accounts@.len() && i != j ==> (
                #[trigger] self.accounts@[i]).id != (#[trigger] self.accounts@[j]).id,
            forall|i: int, j: int|
                0 <= i < self.customers@.len() && 0 <= j < self.customers@.len() && i != j ==> (
                #[trigger] self.customers@[i]).id != (#[trigger] self.customers@[j]).id,
    {
    }

    /// In a well-formed ledger, every account's balance equals the algebraic
    /// sum of the effects of its history — at every observable point.
    pub proof fn lemma_balances_match_history(&self)
        requires
            self.wf(),
        ensures
            forall|i: int|
                0 <= i < self.accounts@.len() ==> (#[trigger] self.accounts@[i]).balance as int
                    == crate::transaction::sum_effects(self.accounts@[i].history@),
    {
    }

    /// The accounts belonging to one customer, in creation order.
    pub open spec fn spec_customer_accounts(&self, customer_id: u64) -> Seq<Account> {
        self.accounts@.filter(|a: Account| a.customer_id == customer_id)
    }

    /// All accounts whose `customer_id` matches, insertion order preserved.
    pub fn list_customer_accounts(&self, customer_id: u64) -> (r: Vec<&Account>)
        ensures
            r@.map_values(|a: &Account| *a) == self.spec_customer_accounts(customer_id),
    {
        let ghost pred = |a: Account| a.customer_id == customer_id;
        let mut out: Vec<&Account> = Vec::new();
        let n = self.accounts.len();
        let mut i: usize = 0;
        proof {
            assert(out@.map_values(|a: &Account| *a) =~= self.accounts@.subrange(0, 0).filter(
                pred,
            ));
        }
        while i < n
            invariant
                n == self.accounts@.len(),
                i <= n,
                out@.map_values(|a: &Account| *a) == self.accounts@.subrange(0, i as int).filter(
                    pred,
                ),
                pred == (|a: Account| a.customer_id == customer_id),
            decreases n - i,
        {
            proof {
                assert(self.accounts@.subrange(0, i + 1).drop_last() =~= self.accounts@.subrange(
                    0,
                    i as int,
                ));
                assert(self.accounts@.subrange(0, i + 1).last() == self.accounts@[i as int]);
                reveal(Seq::filter);
            }
            if self.accounts[i].customer_id == customer_id {
                out.push(&self.accounts[i]);
                proof {
                    assert(out@.map_values(|a: &Account| *a) =~= self.accounts@.subrange(
                        0,
                        i + 1,
                    ).filter(pred));
                }
            } else {
                proof {
                    assert(out@.map_values(|a: &Account| *a) =~= self.accounts@.subrange(
                        0,
                        i + 1,
                    ).filter(pred));
                }
            }
            i = i + 1;
        }
        proof {
            assert(self.accounts@.subrange(0, n as int) =~= self.accounts@);
        }
        out
    }

    /// Exclusive mutable lookup of a customer by id. The ledger's
    /// well-formedness is the caller's to restore: it survives any change
    /// through the returned handle that keeps the customer's id.
    pub fn get_customer_mut(&mut self, id: u64) -> (r: Option<&mut Customer>)
        requires
            old(self).wf(),
        ensures
            r is None ==> !old(self).has_customer(id) && *final(self) == *old(self),
            r is Some ==> old(self).has_customer(id) && *r.unwrap() == old(self).spec_customer(id)
                && final(self).customers@ == old(self).customers@.update(
                old(self).customer_index(id),
                *final(r.unwrap()),
            ) && final(self).accounts@ == old(self).accounts@ && final(self).next_customer_id
                == old(self).next_customer_id && final(self).next_account_id == old(
                self,
            ).next_account_id,
    {
        match self.find_customer_index(id) {
            Some(i) => Some(&mut self.customers[i]),
            None => None,
        }
    }

    /// Exclusive mutable lookup of an account by id. As with
    /// [`Self::get_customer_mut`], the caller answers for well-formedness;
    /// it survives any change through the handle that keeps the account's
    /// id, owner and well-formedness, as [`Self::lemma_wf_after_update`]
    /// records.
    pub fn get_account_mut(&mut self, id: u64) -> (r: Option<&mut Account>)
        requires
            old(self).wf(),
        ensures
            r is None ==> !old(self).has_account(id) && *final(self) == *old(self),
            r is Some ==> old(self).has_account(id) && *r.unwrap() == old(self).spec_account(id)
                && final(self).accounts@ == old(self).accounts@.update(
                old(self).account_index(id),
                *final(r.unwrap()),
            ) && final(self).customers@ == old(self).customers@ && final(self).next_customer_id
                == old(self).next_customer_id && final(self).next_account_id == old(
                self,
            ).next_account_id,
    {
        match self.find_account_index(id) {
            Some(i) => Some(&mut self.accounts[i]),
            None => None,
        }
    }

    /// The inputs on which a transfer is owed success: distinct existing
    /// accounts and a non-negative amount within the source balance.
    pub open spec fn transfer_ok(&self, from_id: u64, to_id: u64, amount: i64) -> bool {
        &&& from_id != to_id
        &&& self.has_account(from_id)
        &&& self.has_account(to_id)
        &&& 0 <= amount <= self.spec_account(from_id).balance
    }

    /// Moves `amount` between two accounts, all or nothing: either both
    /// balances change and both histories grow by the matching entries, or —
    /// on `SelfTransfer`, `AccountNotFound`, `InvalidAmount` or
    /// `InsufficientFunds` — neither account is touched. The debiting account
    /// records one `Transfer` entry naming the receiver; the receiving
    /// account records a plain `Deposit`. A self-transfer is rejected before
    /// any lookup; the two handles the accounts are reached through can
    /// therefore never alias.
    pub fn transfer(&mut self, from_id: u64, to_id: u64, amount: i64) -> (r: Result<(), BankError>)
        requires
            old(self).wf(),
            old(self).transfer_ok(from_id, to_id, amount) ==> old(self).spec_account(
                to_id,
            ).balance + amount <= i64::MAX,
        ensures
            final(self).wf(),
            final(self).same_directory(old(self)),
            from_id == to_id ==> r == Err::<(), BankError>(BankError::SelfTransfer)
                && final(self).accounts@ == old(self).accounts@,
            from_id != to_id && !(old(self).has_account(from_id) && old(self).has_account(to_id))
                ==> r == Err::<(), BankError>(BankError::AccountNotFound)
                && final(self).accounts@ == old(self).accounts@,
            from_id != to_id && old(self).has_account(from_id) && old(self).has_account(to_id)
                && amount < 0 ==> r == Err::<(), BankError>(BankError::InvalidAmount)
                && final(self).accounts@ == old(self).accounts@,
            from_id != to_id && old(self).has_account(from_id) && old(self).has_account(to_id)
                && amount >= 0 && amount > old(self).spec_account(from_id).balance ==> r == Err::<
                (),
                BankError,
            >(BankError::InsufficientFunds) && final(self).accounts@ == old(self).accounts@,
            old(self).transfer_ok(from_id, to_id, amount) ==> ({
                let i = old(self).account_index(from_id);
                let j = old(self).account_index(to_id);
                &&& r == Ok::<(), BankError>(())
                &&& final(self).accounts@.len() == old(self).accounts@.len()
                &&& forall|k: int|
                    0 <= k < old(self).accounts@.len() && k != i && k != j
                        ==> #[trigger] final(self).accounts@[k] == old(self).accounts@[k]
                &&& final(self).accounts@[i].same_identity(&old(self).accounts@[i])
                &&& final(self).accounts@[i].balance == old(self).accounts@[i].balance - amount
                &&& appended(
                    old(self).accounts@[i].history@,
                    final(self).accounts@[i].history@,
                    TransactionType::Transfer { to_account: to_id },
                    amount,
                )
                &&& final(self).accounts@[j].same_identity(&old(self).accounts@[j])
                &&& final(self).accounts@[j].balance == old(self).accounts@[j].balance + amount
                &&& appended(
                    old(self).accounts@[j].history@,
                    final(self).accounts@[j].history@,
                    TransactionType::Deposit,
                    amount,
                )
            }),
    {
        if from_id == to_id {
            return Err(BankError::SelfTransfer);
        }
        let i = match self.find_account_index(from_id) {
            None => {
                return Err(BankError::AccountNotFound);
            },
            Some(i) => i,
        };
        let j = match self.find_account_index(to_id) {
            None => {
                return Err(BankError::AccountNotFound);
            },
            Some(j) => j,
        };
        let res: Result<(), BankError>;
        if i < j {
            let mut to_acc = self.accounts.remove(j);
            let mut from_acc = self.accounts.remove(i);
            res = from_acc.transfer(amount, &mut to_acc);
            self.accounts.insert(i, from_acc);
            self.accounts.insert(j, to_acc);
        } else {
            let mut from_acc = self.accounts.remove(i);
            let mut to_acc = self.accounts.remove(j);
            res = from_acc.transfer(amount, &mut to_acc);
            self.accounts.insert(j, to_acc);
            self.accounts.insert(i, from_acc);
        }
        proof {
            if res is Err {
                assert(self.accounts@ =~= old(self).accounts@);
                self.lemma_wf_after_update(old(self), i as int);
            } else {
                assert(self.accounts@ =~= old(self).accounts@.update(
                    i as int,
                    self.accounts@[i as int],
                ).update(j as int, self.accounts@[j as int]));
                self.lemma_wf_after_update_two(old(self), i as int, j as int);
            }
        }
        res
    }

    /// A ledger whose account list differs from a well-formed one only at
    /// one position — same id, same owner, still well-formed there — and
    /// whose directory is untouched, is well-formed again.
    proof fn lemma_wf_after_update(&self, from: &Bank, i: int)
        requires
            from.wf(),
            0 <= i < from.accounts@.len(),
            self.customers@ == from.customers@,
            self.accounts@.len() == from.accounts@.len(),
            forall|k: int|
                0 <= k < self.accounts@.len() && k != i ==> #[trigger] self.accounts@[k]
                    == from.accounts@[k],
            self.accounts@[i].wf(),
            self.accounts@[i].id == from.accounts@[i].id,
            self.accounts@[i].customer_id == from.accounts@[i].customer_id,
            self.next_account_id == from.next_account_id,
            self.next_customer_id == from.next_customer_id,
        ensures
            self.wf(),
    {
        assert forall|k: int|
            0 <= k < self.accounts@.len() implies self.has_customer(
            (#[trigger] self.accounts@[k]).customer_id,
        ) by {
            let w = from.customer_index(from.accounts@[k].customer_id);
            assert(from.customers@[w].id == from.accounts@[k].customer_id);
            assert(self.customers@[w].id == self.accounts@[k].customer_id);
        }
    }

    /// As [`Self::lemma_wf_after_update`], for a change at two positions.
    proof fn lemma_wf_after_update_two(&self, from: &Bank, i: int, j: int)
        requires
            from.wf(),
            0 <= i < from.accounts@.len(),
            0 <= j < from.accounts@.len(),
            i != j,
            self.customers@ == from.customers@,
            self.accounts@.len() == from.accounts@.len(),
            forall|k: int|
                0 <= k < self.accounts@.len() && k != i && k != j ==> #[trigger] self.accounts@[k]
                    == from.accounts@[k],
            self.accounts@[i].wf(),
            self.accounts@[i].id == from.accounts@[i].id,
            self.accounts@[i].customer_id == from.accounts@[i].customer_id,
            self.accounts@[j].wf(),
            self.accounts@[j].id == from.accounts@[j].id,
            self.accounts@[j].customer_id == from.accounts@[j].customer_id,
            self.next_account_id == from.next_account_id,
            self.next_customer_id == from.next_customer_id,
        ensures
            self.wf(),
    {
        assert(forall|k: int|
            0 <= k < self.accounts@.len() ==> (#[trigger] self.accounts@[k]).id
                == from.accounts@[k].id);
        assert forall|k: int|
            0 <= k < self.accounts@.len() implies self.has_customer(
            (#[trigger] self.accounts@[k]).customer_id,
        ) by {
            let w = from.customer_index(from.accounts@[k].customer_id);
            assert(from.customers@[w].id == from.accounts@[k].customer_id);
            assert(self.customers@[w].id == self.accounts@[k].customer_id);
        }
    }
}

} // verus!
