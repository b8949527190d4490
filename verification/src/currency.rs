//! The payment collaborator: what the registry asks of a currency, and a ledger in
//! memory that answers it.

use crate::types::{AccountId, Balance};
use std::collections::HashMap;
use vstd::prelude::*;

verus! {

/// A payment that the currency refused.
#[derive(Clone, Copy, Debug, PartialEq, Eq, Structural)]
pub struct InsufficientFunds;

/// The balance that `who` has after `value` went from `source` to `dest`, given the
/// balance it had before.
pub open spec fn balance_after(
    before: Balance,
    who: AccountId,
    source: AccountId,
    dest: AccountId,
    value: Balance,
) -> int {
    if source == dest {
        before as int
    } else if who == source {
        before - value
    } else if who == dest {
        before + value
    } else {
        before as int
    }
}

/// A currency that the registry can charge a sale to. `balance`, `floor` and
/// `can_transfer` describe the currency for the contracts of `free_balance` and
/// `transfer`; they are never run.
pub trait Currency: Sized {
    /// The spendable balance of `who`.
    spec fn balance(&self, who: AccountId) -> Balance;

    /// The existential floor: the least balance that the currency leaves with a payer.
    spec fn floor(&self) -> Balance;

    /// Whether the currency lets `value` go from `source` to `dest`.
    spec fn can_transfer(&self, source: AccountId, dest: AccountId, value: Balance) -> bool;

    /// Reads the spendable balance of `who`.
    fn free_balance(&self, who: AccountId) -> (free: Balance)
        ensures
            free == self.balance(who),
    ;

    /// Moves `value` from `source` to `dest`, or refuses and leaves the currency as it
    /// was.
    fn transfer(&mut self, source: AccountId, dest: AccountId, value: Balance) -> (r: Result<
        (),
        InsufficientFunds,
    >)
        ensures
            r is Ok <==> old(self).can_transfer(source, dest, value),
            r is Ok ==> final(self).floor() == old(self).floor(),
            r is Ok ==> forall|who: AccountId| #[trigger]
                final(self).balance(who) == balance_after(
                    old(self).balance(who),
                    who,
                    source,
                    dest,
                    value,
                ),
            r is Err ==> *final(self) == *old(self),
    ;
}

/// Balances held in memory. A payer must keep at least the existential deposit.
pub struct Ledger {
    existential_deposit: Balance,
    accounts: HashMap<AccountId, Balance>,
}

impl Ledger {
    /// A ledger on which every balance is zero.
    pub fn new(existential_deposit: Balance) -> (ledger: Ledger)
        ensures
            ledger.floor() == existential_deposit,
            forall|who: AccountId| #[trigger] ledger.balance(who) == 0,
    {
        Ledger { existential_deposit, accounts: HashMap::new() }
    }

    /// The least balance that a payment must leave with the payer.
    pub fn existential_deposit(&self) -> (floor: Balance)
        ensures
            floor == self.floor(),
    {
        self.existential_deposit
    }

    /// Sets the balance of `who` to `value`.
    pub fn set_balance(&mut self, who: AccountId, value: Balance)
        ensures
            final(self).floor() == old(self).floor(),
            forall|other: AccountId| #[trigger]
                final(self).balance(other) == if other == who {
                    value
                } else {
                    old(self).balance(other)
                },
    {
        self.accounts.insert(who, value);
    }
}

impl Currency for Ledger {
    /// The balance on record for `who`; nothing on record means zero.
    closed spec fn balance(&self, who: AccountId) -> Balance {
        if self.accounts@.contains_key(who) {
            self.accounts@[who]
        } else {
            0
        }
    }

    closed spec fn floor(&self) -> Balance {
        self.existential_deposit
    }

    /// A payment goes through where payer and payee differ, the payer keeps the
    /// existential deposit, and the payee's balance stays representable.
    open spec fn can_transfer(&self, source: AccountId, dest: AccountId, value: Balance) -> bool {
        &&& source != dest
        &&& self.balance(source) >= value + self.floor()
        &&& self.balance(dest) + value <= Balance::MAX
    }

    fn free_balance(&self, who: AccountId) -> (free: Balance) {
        match self.accounts.get(&who) {
            Some(value) => *value,
            None => 0,
        }
    }

    fn transfer(&mut self, source: AccountId, dest: AccountId, value: Balance) -> (r: Result<
        (),
        InsufficientFunds,
    >) {
        let from = self.free_balance(source);
        let to = self.free_balance(dest);
        if source == dest || from < value || from - value < self.existential_deposit || to
            > Balance::MAX - value {
            return Err(InsufficientFunds);
        }
        self.accounts.insert(source, from - value);
        self.accounts.insert(dest, to + value);
        Ok(())
    }
}

} // verus!
