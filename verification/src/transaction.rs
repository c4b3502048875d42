//! The immutable record of one balance-affecting event.

use crate::clock::now_millis;
use vstd::prelude::*;

verus! {

/// What kind of event a [`Transaction`] records. A transfer is recorded on
/// the debiting account only, with the receiving account's id; the receiving
/// account records a plain `Deposit` and keeps no counterparty.
#[derive(Clone, Copy, Debug, PartialEq, Eq, Structural)]
pub enum TransactionType {
    Deposit,
    Withdrawal,
    Transfer { to_account: u64 },
}

/// One balance-affecting event: its kind, the magnitude of the movement in
/// cents (never negative), and the creation time in milliseconds since the
/// Unix epoch, taken from the process clock at construction.
#[derive(Clone, Copy, Debug, PartialEq, Eq, Structural)]
pub struct Transaction {
    pub tx_type: TransactionType,
    pub amount: i64,
    pub timestamp: i64,
}

/// The signed effect of one history entry on the balance of the account that
/// holds it: deposits (plain ones and transfer credits) add the amount,
/// withdrawals and transfer debits subtract it.
pub open spec fn effect(t: Transaction) -> int {
    match t.tx_type {
        TransactionType::Deposit => t.amount as int,
        TransactionType::Withdrawal => -(t.amount as int),
        TransactionType::Transfer { .. } => -(t.amount as int),
    }
}

/// The algebraic sum of the effects of a history, oldest first.
pub open spec fn sum_effects(h: Seq<Transaction>) -> int
    decreases h.len(),
{
    if h.len() == 0 {
        0
    } else {
        sum_effects(h.drop_last()) + effect(h.last())
    }
}

/// `new_h` is `old_h` with one entry of the given kind and amount appended;
/// only the entry's timestamp (drawn from the clock) is left open.
pub open spec fn appended(
    old_h: Seq<Transaction>,
    new_h: Seq<Transaction>,
    tx_type: TransactionType,
    amount: i64,
) -> bool {
    &&& new_h.len() == old_h.len() + 1
    &&& new_h.subrange(0, old_h.len() as int) == old_h
    &&& new_h.last().tx_type == tx_type
    &&& new_h.last().amount == amount
    &&& new_h.last().timestamp >= 0
}

impl Transaction {
    /// Builds a record of the given kind and amount, stamped with the
    /// creation time from the process clock.
    pub fn new(tx_type: TransactionType, amount: i64) -> (r: Transaction)
        ensures
            r.tx_type == tx_type,
            r.amount == amount,
            r.timestamp >= 0,
    {
        Transaction { tx_type, amount, timestamp: now_millis() }
    }
}

} // verus!
