//! The registry and its operations: mint, price, transfer, sale and breeding. Each
//! operation checks everything that can fail before it writes anything.

use crate::currency::Currency;
use crate::dna::{breed_dna, gen_dna, gen_gender, gender_of};
use crate::model::{
    balance_after_step, breed_step, do_transfer_step, first_fresh, fresh_id, mint_kitty_step,
    mint_step, set_price_step, transfer_step, State,
};
use crate::registry::Registry;
use crate::types::{AccountId, Balance, ChainContext, Config, Error, Event, Gender, Kitty, KittyId};
use vstd::prelude::*;

verus! {

/// A registry of kitties together with the currency that sales are paid in.
pub struct Pallet<C: Currency> {
    registry: Registry,
    currency: C,
}

impl<C: Currency> View for Pallet<C> {
    type V = State;

    closed spec fn view(&self) -> State {
        self.registry@
    }
}

/// Whether the currency lets `buyer` pay the asking price of kitty `id` to its owner.
pub open spec fn payable<C: Currency>(bank: C, s: State, id: KittyId, buyer: AccountId) -> bool {
    bank.can_transfer(buyer, s.kitties[id].owner, s.kitties[id].price->0)
}

impl<C: Currency> Pallet<C> {
    /// The currency of the registry.
    pub closed spec fn bank(&self) -> C {
        self.currency
    }

    /// A registry without kitties.
    pub fn new(config: Config, currency: C) -> (pallet: Self)
        ensures
            pallet@ == State::empty(config),
            pallet@.inv(),
            pallet.bank() == currency,
    {
        Pallet { registry: Registry::new(config, 0), currency }
    }

    /// A registry without kitties whose counter of minted kitties starts at `count`.
    pub fn with_count(config: Config, currency: C, count: u64) -> (pallet: Self)
        ensures
            pallet@ == (State { count, ..State::empty(config) }),
            pallet@.inv(),
            pallet.bank() == currency,
    {
        Pallet { registry: Registry::new(config, count), currency }
    }

    /// The currency of the registry.
    pub fn currency(&self) -> (currency: &C)
        ensures
            *currency == self.bank(),
    {
        &self.currency
    }

    /// The most kitties that one account may hold.
    pub fn max_kitties_owned(&self) -> (max: u32)
        ensures
            max == self@.config.max_kitties_owned,
    {
        self.registry.config().max_kitties_owned
    }

    /// How many kitties were minted.
    pub fn count_for_kitties(&self) -> (count: u64)
        ensures
            count == self@.count,
    {
        self.registry.count()
    }

    /// The kitty with identifier `id`.
    pub fn kitties(&self, id: &KittyId) -> (kitty: Option<Kitty>)
        ensures
            kitty == if self@.kitties.contains_key(*id) {
                Some(self@.kitties[*id])
            } else {
                None
            },
    {
        self.registry.get(id)
    }

    /// The kitties that `who` holds, in order.
    pub fn kitties_owned(&self, who: AccountId) -> (ids: Vec<KittyId>)
        ensures
            ids@ == self@.list(who),
    {
        self.registry.list(who)
    }

    /// Whether `who` owns kitty `id`.
    pub fn is_kitty_owner(&self, id: &KittyId, who: AccountId) -> (r: Result<bool, Error>)
        ensures
            r == if self@.kitties.contains_key(*id) {
                Ok::<bool, Error>(self@.kitties[*id].owner == who)
            } else {
                Err(Error::NoKitty)
            },
    {
        match self.registry.get(id) {
            Some(kitty) => Ok(kitty.owner == who),
            None => Err(Error::NoKitty),
        }
    }

    /// Generates an identifier that no kitty has yet, and the gender that goes with it.
    /// The sequence number of the context is counted up, and round past the last one to
    /// zero, until the identifier is new; `None` where no sequence number gives a new
    /// one.
    pub fn gen_dna_gender(&self, ctx: &ChainContext) -> (generated: Option<(KittyId, Gender)>)
        ensures
            generated == match fresh_id(self@, *ctx) {
                Some(id) => Some((id, gender_of(id))),
                None => None,
            },
    {
        let mut index: u32 = ctx.extrinsic_index;
        let mut left: u64 = 4294967296;
        while left > 0
            invariant
                first_fresh(self@, *ctx, index, left as nat) == fresh_id(self@, *ctx),
            decreases left,
        {
            let dna = gen_dna(ctx, index);
            if !self.registry.contains(&dna) {
                return Some((dna, gen_gender(&dna)));
            }
            index = if index == u32::MAX {
                0
            } else {
                index + 1
            };
            left -= 1;
        }
        None
    }

    /// Mints a kitty for `owner` and gives its identifier. The identifier is `dna` where
    /// one is given, and else generated from `ctx`; the gender is `gender` where one is
    /// given, and else read off the identifier. The kitty is not for sale.
    pub fn mint(
        &mut self,
        owner: AccountId,
        dna: Option<KittyId>,
        gender: Option<Gender>,
        ctx: &ChainContext,
    ) -> (r: Result<KittyId, Error>)
        ensures
            (r, final(self)@) == mint_step(old(self)@, owner, dna, gender, *ctx),
            final(self)@.inv(),
            final(self).bank() == old(self).bank(),
    {
        proof {
            use_type_invariant(&self.registry);
        }
        let id = match dna {
            Some(id) => id,
            None => match self.gen_dna_gender(ctx) {
                Some((id, _)) => id,
                None => {
                    return Err(Error::DuplicateKitty);
                },
            },
        };
        let gender = match gender {
            Some(gender) => gender,
            None => gen_gender(&id),
        };
        match self.registry.insert_kitty(owner, id, id, gender) {
            Ok(()) => Ok(id),
            Err(e) => Err(e),
        }
    }

    /// Gives kitty `kitty_id` to `to`, or with a limit price sells it to `to`. A buyer
    /// pays the asking price, never the limit. All checks come before the payment, and
    /// the kitty moves only after the payment went through; a refused call changes
    /// nothing.
    pub fn do_transfer(
        &mut self,
        kitty_id: KittyId,
        to: AccountId,
        maybe_limit_price: Option<Balance>,
    ) -> (r: Result<Event, Error>)
        ensures
            (r, final(self)@) == do_transfer_step(
                old(self)@,
                kitty_id,
                to,
                maybe_limit_price,
                old(self).bank().balance(to),
                payable(old(self).bank(), old(self)@, kitty_id, to),
            ),
            final(self)@.inv(),
            forall|who: AccountId| #[trigger]
                final(self).bank().balance(who) == balance_after_step(
                    old(self)@,
                    kitty_id,
                    to,
                    maybe_limit_price,
                    r is Ok,
                    who,
                    old(self).bank().balance(who),
                ),
            final(self).bank().floor() == old(self).bank().floor(),
            maybe_limit_price is None || r is Err ==> final(self).bank() == old(self).bank(),
    {
        proof {
            use_type_invariant(&self.registry);
        }
        let kitty = match self.registry.get(&kitty_id) {
            Some(kitty) => kitty,
            None => {
                return Err(Error::NoKitty);
            },
        };
        let from = kitty.owner;
        if from == to {
            return Err(
                if maybe_limit_price.is_some() {
                    Error::BuyerIsKittyOwner
                } else {
                    Error::TransferToSelf
                },
            );
        }
        let mut sale: Option<Balance> = None;
        match maybe_limit_price {
            Some(limit_price) => match kitty.price {
                Some(price) => {
                    if limit_price < price {
                        return Err(Error::BidPriceTooLow);
                    }
                    if self.currency.free_balance(to) < price {
                        return Err(Error::NotEnoughBalance);
                    }
                    sale = Some(price);
                },
                None => {
                    return Err(Error::NotForSale);
                },
            },
            None => {},
        }
        if self.registry.owned_count(to) >= self.registry.config().max_kitties_owned as usize {
            return Err(Error::TooManyOwned);
        }
        match sale {
            Some(price) => {
                match self.currency.transfer(to, from, price) {
                    Ok(()) => {},
                    Err(_) => {
                        return Err(Error::NotEnoughBalance);
                    },
                }
                match self.registry.transfer_kitty_to(&kitty_id, to) {
                    Ok(()) => Ok(Event::Sold { seller: from, buyer: to, kitty: kitty_id, price }),
                    Err(e) => Err(e),
                }
            },
            None => match self.registry.transfer_kitty_to(&kitty_id, to) {
                Ok(()) => Ok(Event::Transferred { from, to, kitty: kitty_id }),
                Err(e) => Err(e),
            },
        }
    }

    /// Gives kitty `kitty_id` from `from`, who must own it, to `to`. The kitty is then
    /// not for sale.
    pub fn transfer(&mut self, from: AccountId, to: AccountId, kitty_id: KittyId) -> (r: Result<
        Event,
        Error,
    >)
        ensures
            (r, final(self)@) == transfer_step(old(self)@, from, to, kitty_id),
            final(self)@.inv(),
            final(self).bank() == old(self).bank(),
    {
        proof {
            use_type_invariant(&self.registry);
        }
        match self.registry.get(&kitty_id) {
            Some(kitty) => {
                if kitty.owner != from {
                    return Err(Error::NotOwner);
                }
            },
            None => {
                return Err(Error::NoKitty);
            },
        }
        self.do_transfer(kitty_id, to, None)
    }

    /// Sells kitty `kitty_id` to `buyer` at its asking price, provided that price is not
    /// above `limit_price`.
    pub fn buy_kitty(&mut self, buyer: AccountId, kitty_id: KittyId, limit_price: Balance) -> (r:
        Result<Event, Error>)
        ensures
            (r, final(self)@) == do_transfer_step(
                old(self)@,
                kitty_id,
                buyer,
                Some(limit_price),
                old(self).bank().balance(buyer),
                payable(old(self).bank(), old(self)@, kitty_id, buyer),
            ),
            final(self)@.inv(),
            forall|who: AccountId| #[trigger]
                final(self).bank().balance(who) == balance_after_step(
                    old(self)@,
                    kitty_id,
                    buyer,
                    Some(limit_price),
                    r is Ok,
                    who,
                    old(self).bank().balance(who),
                ),
            final(self).bank().floor() == old(self).bank().floor(),
            r is Err ==> final(self).bank() == old(self).bank(),
    {
        self.do_transfer(kitty_id, buyer, Some(limit_price))
    }

    /// Sets the asking price of kitty `kitty_id`, or with `None` withdraws it from sale.
    /// Only the owner may.
    pub fn set_price(
        &mut self,
        caller: AccountId,
        kitty_id: KittyId,
        new_price: Option<Balance>,
    ) -> (r: Result<Event, Error>)
        ensures
            (r, final(self)@) == set_price_step(old(self)@, caller, kitty_id, new_price),
            final(self)@.inv(),
            final(self).bank() == old(self).bank(),
    {
        self.registry.set_price(caller, &kitty_id, new_price)
    }

    /// Mints a kitty with a generated identifier for `owner`. The kitty is not for sale.
    pub fn create_kitty(&mut self, owner: AccountId, ctx: &ChainContext) -> (r: Result<
        Event,
        Error,
    >)
        ensures
            final(self)@ == mint_step(old(self)@, owner, None, None, *ctx).1,
            r == match mint_step(old(self)@, owner, None, None, *ctx).0 {
                Ok(id) => Ok::<Event, Error>(Event::Created { kitty: id, owner }),
                Err(e) => Err(e),
            },
            final(self)@.inv(),
            final(self).bank() == old(self).bank(),
    {
        match self.mint(owner, None, None, ctx) {
            Ok(id) => Ok(Event::Created { kitty: id, owner }),
            Err(e) => Err(e),
        }
    }

    /// Mints a kitty with a generated identifier for `sender`, as [`Pallet::create_kitty`]
    /// does, and then has `sender` put it up for sale at `price`. Where the mint is
    /// refused, nothing changes.
    pub fn mint_kitty(&mut self, sender: AccountId, price: Balance, ctx: &ChainContext) -> (r:
        Result<Event, Error>)
        ensures
            (r, final(self)@) == mint_kitty_step(old(self)@, sender, price, *ctx),
            final(self)@.inv(),
            final(self).bank() == old(self).bank(),
    {
        match self.mint(sender, None, None, ctx) {
            Ok(id) => {
                let priced = self.registry.set_price(sender, &id, Some(price));
                assert(priced is Ok);
                Ok(Event::Created { kitty: id, owner: sender })
            },
            Err(e) => Err(e),
        }
    }

    /// Breeds two kitties into a new one for `caller`. The child gets a generated
    /// identifier and the gender that goes with it; each byte of its genome comes from
    /// one of the parents.
    pub fn breed_kitty(
        &mut self,
        caller: AccountId,
        parent_1: KittyId,
        parent_2: KittyId,
        ctx: &ChainContext,
    ) -> (r: Result<Event, Error>)
        ensures
            (r, final(self)@) == breed_step(old(self)@, caller, parent_1, parent_2, *ctx),
            final(self)@.inv(),
            final(self).bank() == old(self).bank(),
    {
        proof {
            use_type_invariant(&self.registry);
        }
        let mom = match self.registry.get(&parent_1) {
            Some(kitty) => kitty,
            None => {
                return Err(Error::NoKitty);
            },
        };
        let dad = match self.registry.get(&parent_2) {
            Some(kitty) => kitty,
            None => {
                return Err(Error::NoKitty);
            },
        };
        if self.registry.config().breeder_owns_parents && (mom.owner != caller || dad.owner
            != caller) {
            return Err(Error::NotOwner);
        }
        if self.registry.config().opposite_genders && mom.gender == dad.gender {
            return Err(Error::CantBreed);
        }
        let (id, gender) = match self.gen_dna_gender(ctx) {
            Some(generated) => generated,
            None => {
                return Err(Error::DuplicateKitty);
            },
        };
        let dna = breed_dna(&mom.dna, &dad.dna, &id);
        match self.registry.insert_kitty(caller, id, dna, gender) {
            Ok(()) => Ok(Event::Created { kitty: id, owner: caller }),
            Err(e) => Err(e),
        }
    }
}

} // verus!
