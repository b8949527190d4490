//! The ownership index: for each account the list of the kitties it holds.

use crate::owned::{
    first_index, owned_as_vec, owned_ids, owned_len, owned_new, position, swap_removed, OwnedList,
};
use crate::types::{AccountId, Error, KittyId};
use std::collections::HashMap;
use vstd::prelude::*;

verus! {

/// The lists of all accounts. An account without an entry holds nothing.
pub struct OwnershipIndex {
    lists: HashMap<AccountId, OwnedList>,
}

impl View for OwnershipIndex {
    type V = Map<AccountId, Seq<KittyId>>;

    closed spec fn view(&self) -> Map<AccountId, Seq<KittyId>> {
        Map::new(
            |who: AccountId| self.lists@.contains_key(who),
            |who: AccountId| owned_ids(self.lists@[who]),
        )
    }
}

/// The list of `who` in an index; empty where the index has no entry.
pub open spec fn list_of(index: Map<AccountId, Seq<KittyId>>, who: AccountId) -> Seq<KittyId> {
    if index.contains_key(who) {
        index[who]
    } else {
        Seq::empty()
    }
}

impl OwnershipIndex {
    /// An index in which nobody holds anything.
    pub fn new() -> (index: OwnershipIndex)
        ensures
            index@ == Map::<AccountId, Seq<KittyId>>::empty(),
    {
        let index = OwnershipIndex { lists: HashMap::new() };
        assert(index@ =~= Map::<AccountId, Seq<KittyId>>::empty());
        index
    }

    /// The kitties that `who` holds, in order.
    pub fn list(&self, who: AccountId) -> (ids: Vec<KittyId>)
        ensures
            ids@ == list_of(self@, who),
    {
        let mut ids: Vec<KittyId> = Vec::new();
        match self.lists.get(&who) {
            Some(list) => {
                let held = owned_as_vec(list);
                let mut i: usize = 0;
                while i < held.len()
                    invariant
                        i <= held.len(),
                        ids@ == held@.take(i as int),
                    decreases held.len() - i,
                {
                    ids.push(held[i]);
                    assert(held@.take(i + 1) == held@.take(i as int).push(held@[i as int]));
                    i += 1;
                }
                assert(held@.take(held@.len() as int) == held@);
            },
            None => {},
        }
        ids
    }

    /// How many kitties `who` holds.
    pub fn count(&self, who: AccountId) -> (n: usize)
        ensures
            n == list_of(self@, who).len(),
    {
        match self.lists.get(&who) {
            Some(list) => owned_len(list),
            None => 0,
        }
    }

    /// Whether `who` holds kitty `id`.
    pub fn holds(&self, who: AccountId, id: &KittyId) -> (held: bool)
        ensures
            held == list_of(self@, who).contains(*id),
    {
        match self.lists.get(&who) {
            Some(list) => position(list, id).is_some(),
            None => false,
        }
    }

    /// Appends `id` to the list of `who`, unless that list already holds `max` kitties:
    /// then the index stays as it is.
    pub fn try_add(&mut self, who: AccountId, id: KittyId, max: u32) -> (r: Result<(), Error>)
        ensures
            r == if list_of(old(self)@, who).len() < max {
                Ok::<(), Error>(())
            } else {
                Err(Error::TooManyOwned)
            },
            final(self)@ == if list_of(old(self)@, who).len() < max {
                old(self)@.insert(who, list_of(old(self)@, who).push(id))
            } else {
                old(self)@
            },
    {
        if self.count(who) >= max as usize {
            return Err(Error::TooManyOwned);
        }
        let mut list = match self.lists.remove(&who) {
            Some(list) => list,
            None => owned_new(),
        };
        let added = crate::owned::try_add(&mut list, id, max);
        self.lists.insert(who, list);
        assert(self@ =~= old(self)@.insert(who, list_of(old(self)@, who).push(id)));
        added
    }

    /// Takes `id` out of the list of `who` at its first occurrence; the last entry of
    /// the list fills the gap. Where `who` does not hold `id`, the index stays as it is.
    pub fn remove(&mut self, who: AccountId, id: &KittyId) -> (r: Result<(), Error>)
        ensures
            r == if list_of(old(self)@, who).contains(*id) {
                Ok::<(), Error>(())
            } else {
                Err(Error::NoKitty)
            },
            final(self)@ == if list_of(old(self)@, who).contains(*id) {
                old(self)@.insert(
                    who,
                    swap_removed(
                        list_of(old(self)@, who),
                        first_index(list_of(old(self)@, who), *id),
                    ),
                )
            } else {
                old(self)@
            },
    {
        if !self.holds(who, id) {
            return Err(Error::NoKitty);
        }
        let mut list = match self.lists.remove(&who) {
            Some(list) => list,
            None => owned_new(),
        };
        let removed = crate::owned::remove(&mut list, id);
        self.lists.insert(who, list);
        assert(self@ =~= old(self)@.insert(
            who,
            swap_removed(list_of(old(self)@, who), first_index(list_of(old(self)@, who), *id)),
        ));
        removed
    }
}

} // verus!
