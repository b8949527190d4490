//! The books of the registry: asset store, ownership index and counter, held together
//! under the invariant of the registry. What is written here is written as a whole, so
//! that store and index never disagree.

use crate::index::OwnershipIndex;
use crate::laws::{
    lemma_empty_inv, lemma_inv_ignores_count, lemma_minted_inv, lemma_moved_inv,
    lemma_set_price_inv,
};
use crate::model::{mint_check, minted, moved, set_price_step, transfer_check, State};
use crate::store::AssetStore;
use crate::types::{AccountId, Balance, Config, Error, Event, Gender, Kitty, KittyId};
use vstd::prelude::*;

verus! {

/// Store and index, which change together.
pub(crate) struct Books {
    store: AssetStore,
    index: OwnershipIndex,
}

impl Books {
    fn new() -> (books: Books)
        ensures
            books.store@ == Map::<KittyId, Kitty>::empty(),
            books.index@ == Map::<AccountId, Seq<KittyId>>::empty(),
    {
        Books { store: AssetStore::new(), index: OwnershipIndex::new() }
    }
}

/// The books of a registry with its constants and its counter.
pub(crate) struct Registry {
    config: Config,
    books: Books,
    count: u64,
}

impl View for Registry {
    type V = State;

    closed spec fn view(&self) -> State {
        State {
            config: self.config,
            kitties: self.books.store@,
            owned: self.books.index@,
            count: self.count,
        }
    }
}

impl Registry {
    /// Every registry meets the invariant, at all times.
    #[verifier::type_invariant]
    pub(crate) open spec fn well_formed(self) -> bool {
        self@.inv()
    }

    /// Books without kitties, with the counter at `count`.
    pub(crate) fn new(config: Config, count: u64) -> (registry: Registry)
        ensures
            registry@ == (State { count, ..State::empty(config) }),
            registry@.inv(),
    {
        proof {
            lemma_empty_inv(config);
            lemma_inv_ignores_count(State::empty(config), count);
        }
        Registry { config, books: Books::new(), count }
    }

    pub(crate) fn config(&self) -> (config: Config)
        ensures
            config == self@.config,
    {
        self.config
    }

    pub(crate) fn count(&self) -> (count: u64)
        ensures
            count == self@.count,
    {
        self.count
    }

    pub(crate) fn get(&self, id: &KittyId) -> (found: Option<Kitty>)
        ensures
            found == if self@.kitties.contains_key(*id) {
                Some(self@.kitties[*id])
            } else {
                None
            },
    {
        self.books.store.get(id)
    }

    pub(crate) fn contains(&self, id: &KittyId) -> (found: bool)
        ensures
            found == self@.kitties.contains_key(*id),
    {
        self.books.store.contains(id)
    }

    pub(crate) fn list(&self, who: AccountId) -> (ids: Vec<KittyId>)
        ensures
            ids@ == self@.list(who),
    {
        self.books.index.list(who)
    }

    pub(crate) fn owned_count(&self, who: AccountId) -> (n: usize)
        ensures
            n == self@.list(who).len(),
    {
        self.books.index.count(who)
    }

    /// Records a new kitty for `owner`, not for sale: the bookkeeping that minting and
    /// breeding share. Nothing is written unless every check passes.
    pub(crate) fn insert_kitty(
        &mut self,
        owner: AccountId,
        id: KittyId,
        dna: KittyId,
        gender: Gender,
    ) -> (r: Result<(), Error>)
        ensures
            r == mint_check(old(self)@, owner, id),
            final(self)@ == if r is Ok {
                minted(old(self)@, owner, id, dna, gender)
            } else {
                old(self)@
            },
            final(self)@.inv(),
    {
        proof {
            use_type_invariant(&*self);
        }
        if self.books.store.contains(&id) {
            return Err(Error::DuplicateKitty);
        }
        let new_count = match self.count.checked_add(1) {
            Some(n) => n,
            None => {
                return Err(Error::KittyCountOverFlow);
            },
        };
        if self.books.index.count(owner) >= self.config.max_kitties_owned as usize {
            return Err(Error::TooManyOwned);
        }
        proof {
            lemma_minted_inv(self@, owner, id, dna, gender);
            lemma_inv_ignores_count(self@, new_count);
        }
        self.count = new_count;
        let mut books = Books::new();
        std::mem::swap(&mut books, &mut self.books);
        let added = books.index.try_add(owner, id, self.config.max_kitties_owned);
        books.store.put(id, Kitty { id, dna, price: None, gender, owner });
        assert(added is Ok);
        self.books = books;
        Ok(())
    }

    /// Sets the asking price of kitty `id`, or with `None` withdraws it from sale. Only
    /// the owner may; a refused call writes nothing.
    pub(crate) fn set_price(
        &mut self,
        caller: AccountId,
        id: &KittyId,
        new_price: Option<Balance>,
    ) -> (r: Result<Event, Error>)
        ensures
            (r, final(self)@) == set_price_step(old(self)@, caller, *id, new_price),
            final(self)@.inv(),
    {
        proof {
            use_type_invariant(&*self);
        }
        let kitty = match self.books.store.get(id) {
            Some(kitty) => kitty,
            None => {
                return Err(Error::NoKitty);
            },
        };
        if kitty.owner != caller {
            return Err(Error::NotOwner);
        }
        proof {
            lemma_set_price_inv(self@, caller, *id, new_price);
        }
        let mut books = Books::new();
        std::mem::swap(&mut books, &mut self.books);
        books.store.put(*id, Kitty { price: new_price, ..kitty });
        self.books = books;
        Ok(Event::PriceSet { kitty: *id, price: new_price })
    }

    /// Hands kitty `id` to `to`: it leaves the list of its owner, joins the list of `to`
    /// and is no longer for sale. Where there is no such kitty, where `to` owns it
    /// already, or where `to` holds as many kitties as it may, the call is refused and
    /// store, lists and counter stay as they were.
    pub(crate) fn transfer_kitty_to(&mut self, id: &KittyId, to: AccountId) -> (r: Result<
        (),
        Error,
    >)
        ensures
            r == transfer_check(old(self)@, *id, to, None, 0),
            final(self)@ == if r is Ok {
                moved(old(self)@, *id, to)
            } else {
                old(self)@
            },
            final(self)@.inv(),
    {
        proof {
            use_type_invariant(&*self);
        }
        let kitty = match self.books.store.get(id) {
            Some(kitty) => kitty,
            None => {
                return Err(Error::NoKitty);
            },
        };
        let prev_owner = kitty.owner;
        if prev_owner == to {
            return Err(Error::TransferToSelf);
        }
        if self.books.index.count(to) >= self.config.max_kitties_owned as usize {
            return Err(Error::TooManyOwned);
        }
        proof {
            lemma_moved_inv(self@, *id, to);
        }
        let mut books = Books::new();
        std::mem::swap(&mut books, &mut self.books);
        let removed = books.index.remove(prev_owner, id);
        let added = books.index.try_add(to, *id, self.config.max_kitties_owned);
        books.store.put(*id, Kitty { owner: to, price: None, ..kitty });
        assert(removed is Ok && added is Ok);
        self.books = books;
        Ok(())
    }
}

} // verus!
