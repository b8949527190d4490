//! The registry as a mathematical value, its invariant, and what each operation makes
//! of it. The executable registry is specified by the functions of this file.

use crate::currency::balance_after;
use crate::dna::{dna_at, gender_of, recombined};
use crate::index::list_of;
use crate::owned::{first_index, swap_removed};
use crate::types::{AccountId, Balance, ChainContext, Config, Error, Event, Gender, Kitty, KittyId};
use vstd::prelude::*;

verus! {

/// The state of a registry.
pub struct State {
    /// The constants and policies it was made with.
    pub config: Config,
    /// The asset store: each kitty under its identifier.
    pub kitties: Map<KittyId, Kitty>,
    /// The ownership index: the kitties that each account holds, in order.
    pub owned: Map<AccountId, Seq<KittyId>>,
    /// How many kitties were minted.
    pub count: u64,
}

impl State {
    /// A registry without kitties.
    pub open spec fn empty(config: Config) -> State {
        State { config, kitties: Map::empty(), owned: Map::empty(), count: 0 }
    }

    /// The kitties that `who` holds; none where the index has no entry.
    pub open spec fn list(self, who: AccountId) -> Seq<KittyId> {
        list_of(self.owned, who)
    }

    /// Every kitty is stored under its own identifier.
    pub open spec fn keyed_by_id(self) -> bool {
        forall|id: KittyId| #[trigger] self.kitties.contains_key(id) ==> self.kitties[id].id == id
    }

    /// Every kitty stands in the list of its owner.
    pub open spec fn owners_list_their_kitties(self) -> bool {
        forall|id: KittyId| #[trigger]
            self.kitties.contains_key(id) ==> self.list(self.kitties[id].owner).contains(id)
    }

    /// Every entry of a list is a kitty that the account of the list owns.
    pub open spec fn lists_hold_owned_kitties(self) -> bool {
        forall|who: AccountId, i: int|
            0 <= i < self.list(who).len() ==> self.kitties.contains_key(
                #[trigger] self.list(who)[i],
            ) && self.kitties[self.list(who)[i]].owner == who
    }

    /// No list names a kitty twice.
    pub open spec fn lists_are_duplicate_free(self) -> bool {
        forall|who: AccountId| #[trigger] self.list(who).no_duplicates()
    }

    /// No list is longer than the configured cap.
    pub open spec fn lists_are_bounded(self) -> bool {
        forall|who: AccountId| #[trigger] self.list(who).len() <= self.config.max_kitties_owned
    }

    /// The invariant of the registry: store and index agree, no kitty is listed twice,
    /// and no account holds more than the cap.
    pub open spec fn inv(self) -> bool {
        &&& self.keyed_by_id()
        &&& self.owners_list_their_kitties()
        &&& self.lists_hold_owned_kitties()
        &&& self.lists_are_duplicate_free()
        &&& self.lists_are_bounded()
    }
}

/// The sequence number after `index`; after the last one comes zero.
pub open spec fn next_index(index: u32) -> u32 {
    if index == u32::MAX {
        0
    } else {
        (index + 1) as u32
    }
}

/// The first identifier that the store does not hold among those that the context
/// yields for `left` sequence numbers from `index` on; `None` where it holds them all.
pub open spec fn first_fresh(s: State, ctx: ChainContext, index: u32, left: nat) -> Option<
    KittyId,
>
    decreases left,
{
    if left == 0 {
        None
    } else if !s.kitties.contains_key(dna_at(ctx, index)) {
        Some(dna_at(ctx, index))
    } else {
        first_fresh(s, ctx, next_index(index), (left - 1) as nat)
    }
}

/// How many sequence numbers there are.
pub open spec fn sequence_numbers() -> nat {
    4294967296
}

/// The identifier that a call made in `ctx` generates: the first new one, trying every
/// sequence number once, from that of the call on and round past the last to zero.
pub open spec fn fresh_id(s: State, ctx: ChainContext) -> Option<KittyId> {
    first_fresh(s, ctx, ctx.extrinsic_index, sequence_numbers())
}

/// Whether a new kitty `id` can be recorded for `owner`, and if not, why.
pub open spec fn mint_check(s: State, owner: AccountId, id: KittyId) -> Result<(), Error> {
    if s.kitties.contains_key(id) {
        Err(Error::DuplicateKitty)
    } else if s.count == u64::MAX {
        Err(Error::KittyCountOverFlow)
    } else if s.list(owner).len() >= s.config.max_kitties_owned {
        Err(Error::TooManyOwned)
    } else {
        Ok(())
    }
}

/// The registry after a new kitty was recorded for `owner`. The kitty is not for sale.
pub open spec fn minted(
    s: State,
    owner: AccountId,
    id: KittyId,
    dna: KittyId,
    gender: Gender,
) -> State {
    State {
        config: s.config,
        kitties: s.kitties.insert(id, Kitty { id, dna, price: None, gender, owner }),
        owned: s.owned.insert(owner, s.list(owner).push(id)),
        count: (s.count + 1) as u64,
    }
}

/// Minting: the identifier is the genome given, or else generated; the gender is the
/// one given, or else read off the identifier. Gives the identifier of the new kitty and
/// the registry after the call.
pub open spec fn mint_step(
    s: State,
    owner: AccountId,
    dna: Option<KittyId>,
    gender: Option<Gender>,
    ctx: ChainContext,
) -> (Result<KittyId, Error>, State) {
    let chosen = if dna is Some {
        dna
    } else {
        fresh_id(s, ctx)
    };
    match chosen {
        None => (Err(Error::DuplicateKitty), s),
        Some(id) => match mint_check(s, owner, id) {
            Err(e) => (Err(e), s),
            Ok(_) => {
                let g = if gender is Some {
                    gender->0
                } else {
                    gender_of(id)
                };
                (Ok(id), minted(s, owner, id, id, g))
            },
        },
    }
}

/// Minting a kitty with a generated identifier and putting it up for sale: a mint
/// followed, where it succeeds, by the owner setting the price.
pub open spec fn mint_kitty_step(
    s: State,
    sender: AccountId,
    price: Balance,
    ctx: ChainContext,
) -> (Result<Event, Error>, State) {
    let minted = mint_step(s, sender, None, None, ctx);
    match minted.0 {
        Err(e) => (Err(e), s),
        Ok(id) => (
            Ok(Event::Created { kitty: id, owner: sender }),
            set_price_step(minted.1, sender, id, Some(price)).1,
        ),
    }
}

/// Setting a price: only the owner may, and `None` withdraws the kitty from sale.
pub open spec fn set_price_step(
    s: State,
    caller: AccountId,
    id: KittyId,
    new_price: Option<Balance>,
) -> (Result<Event, Error>, State) {
    if !s.kitties.contains_key(id) {
        (Err(Error::NoKitty), s)
    } else if s.kitties[id].owner != caller {
        (Err(Error::NotOwner), s)
    } else {
        (
            Ok(Event::PriceSet { kitty: id, price: new_price }),
            State {
                kitties: s.kitties.insert(id, Kitty { price: new_price, ..s.kitties[id] }),
                ..s
            },
        )
    }
}

/// The registry after kitty `id` went to `to`: it leaves the list of its owner, where
/// the last entry takes its place, joins the end of the list of `to`, and is no longer
/// for sale.
pub open spec fn moved(s: State, id: KittyId, to: AccountId) -> State {
    let kitty = s.kitties[id];
    let from = kitty.owner;
    State {
        config: s.config,
        kitties: s.kitties.insert(id, Kitty { owner: to, price: None, ..kitty }),
        owned: s.owned.insert(
            from,
            swap_removed(s.list(from), first_index(s.list(from), id)),
        ).insert(to, s.list(to).push(id)),
        count: s.count,
    }
}

/// Whether kitty `id` can go to `to`, and if not, why. With a limit price the move is a
/// sale to `to`, whose spendable balance is `free`; without one it is a gift.
pub open spec fn transfer_check(
    s: State,
    id: KittyId,
    to: AccountId,
    maybe_limit_price: Option<Balance>,
    free: Balance,
) -> Result<(), Error> {
    if !s.kitties.contains_key(id) {
        Err(Error::NoKitty)
    } else if s.kitties[id].owner == to {
        if maybe_limit_price is Some {
            Err(Error::BuyerIsKittyOwner)
        } else {
            Err(Error::TransferToSelf)
        }
    } else if maybe_limit_price is Some && s.kitties[id].price is None {
        Err(Error::NotForSale)
    } else if maybe_limit_price is Some && maybe_limit_price->0 < s.kitties[id].price->0 {
        Err(Error::BidPriceTooLow)
    } else if maybe_limit_price is Some && free < s.kitties[id].price->0 {
        Err(Error::NotEnoughBalance)
    } else if s.list(to).len() >= s.config.max_kitties_owned {
        Err(Error::TooManyOwned)
    } else {
        Ok(())
    }
}

/// A gift or a sale of kitty `id` to `to`. For a sale, `free` is the spendable balance
/// of `to` and `paid` says whether the currency let the asking price go to the seller.
pub open spec fn do_transfer_step(
    s: State,
    id: KittyId,
    to: AccountId,
    maybe_limit_price: Option<Balance>,
    free: Balance,
    paid: bool,
) -> (Result<Event, Error>, State) {
    match transfer_check(s, id, to, maybe_limit_price, free) {
        Err(e) => (Err(e), s),
        Ok(_) => {
            let kitty = s.kitties[id];
            if maybe_limit_price is Some {
                if paid {
                    (
                        Ok(
                            Event::Sold {
                                seller: kitty.owner,
                                buyer: to,
                                kitty: id,
                                price: kitty.price->0,
                            },
                        ),
                        moved(s, id, to),
                    )
                } else {
                    (Err(Error::NotEnoughBalance), s)
                }
            } else {
                (Ok(Event::Transferred { from: kitty.owner, to, kitty: id }), moved(s, id, to))
            }
        },
    }
}

/// The balance of `who` after a gift or a sale of kitty `id` to `to` that ended well
/// (`done`) or was refused, given the balance before: only a sale that ended well moves
/// money, the asking price from the buyer to the seller.
pub open spec fn balance_after_step(
    s: State,
    id: KittyId,
    to: AccountId,
    maybe_limit_price: Option<Balance>,
    done: bool,
    who: AccountId,
    before: Balance,
) -> int {
    if done && maybe_limit_price is Some {
        balance_after(before, who, to, s.kitties[id].owner, s.kitties[id].price->0)
    } else {
        before as int
    }
}

/// A gift of kitty `id` from `from`, who must own it, to `to`.
pub open spec fn transfer_step(s: State, from: AccountId, to: AccountId, id: KittyId) -> (
    Result<Event, Error>,
    State,
) {
    if !s.kitties.contains_key(id) {
        (Err(Error::NoKitty), s)
    } else if s.kitties[id].owner != from {
        (Err(Error::NotOwner), s)
    } else {
        do_transfer_step(s, id, to, None, 0, false)
    }
}

/// Whether `caller` may breed the two parents, and if not, why.
pub open spec fn breed_check(
    s: State,
    caller: AccountId,
    parent1: KittyId,
    parent2: KittyId,
) -> Result<(), Error> {
    if !s.kitties.contains_key(parent1) || !s.kitties.contains_key(parent2) {
        Err(Error::NoKitty)
    } else if s.config.breeder_owns_parents && (s.kitties[parent1].owner != caller
        || s.kitties[parent2].owner != caller) {
        Err(Error::NotOwner)
    } else if s.config.opposite_genders && s.kitties[parent1].gender
        == s.kitties[parent2].gender {
        Err(Error::CantBreed)
    } else {
        Ok(())
    }
}

/// Breeding: the child gets a generated identifier, the gender read off it, and the
/// genomes of its parents recombined as the bytes of the identifier decide.
pub open spec fn breed_step(
    s: State,
    caller: AccountId,
    parent1: KittyId,
    parent2: KittyId,
    ctx: ChainContext,
) -> (Result<Event, Error>, State) {
    match breed_check(s, caller, parent1, parent2) {
        Err(e) => (Err(e), s),
        Ok(_) => match fresh_id(s, ctx) {
            None => (Err(Error::DuplicateKitty), s),
            Some(id) => match mint_check(s, caller, id) {
                Err(e) => (Err(e), s),
                Ok(_) => (
                    Ok(Event::Created { kitty: id, owner: caller }),
                    minted(
                        s,
                        caller,
                        id,
                        recombined(s.kitties[parent1].dna, s.kitties[parent2].dna, id),
                        gender_of(id),
                    ),
                ),
            },
        },
    }
}

/// One call into the registry, with what the host answered where the call asks it.
pub enum Call {
    /// A mint for `owner`.
    Mint { owner: AccountId, dna: Option<KittyId>, gender: Option<Gender>, ctx: ChainContext },
    /// A new asking price.
    SetPrice { caller: AccountId, id: KittyId, new_price: Option<Balance> },
    /// A gift.
    Transfer { from: AccountId, to: AccountId, id: KittyId },
    /// A purchase; `free` is the buyer's spendable balance, and `paid` whether the
    /// currency let the payment through.
    Buy { buyer: AccountId, id: KittyId, limit_price: Balance, free: Balance, paid: bool },
    /// A breeding.
    Breed { caller: AccountId, parent1: KittyId, parent2: KittyId, ctx: ChainContext },
}

/// Why the registry refuses a call, or `None` where it carries the call out.
pub open spec fn refusal(s: State, call: Call) -> Option<Error> {
    match call {
        Call::Mint { owner, dna, gender, ctx } => match mint_step(s, owner, dna, gender, ctx).0 {
            Ok(_) => None,
            Err(e) => Some(e),
        },
        Call::SetPrice { caller, id, new_price } => match set_price_step(
            s,
            caller,
            id,
            new_price,
        ).0 {
            Ok(_) => None,
            Err(e) => Some(e),
        },
        Call::Transfer { from, to, id } => match transfer_step(s, from, to, id).0 {
            Ok(_) => None,
            Err(e) => Some(e),
        },
        Call::Buy { buyer, id, limit_price, free, paid } => match do_transfer_step(
            s,
            id,
            buyer,
            Some(limit_price),
            free,
            paid,
        ).0 {
            Ok(_) => None,
            Err(e) => Some(e),
        },
        Call::Breed { caller, parent1, parent2, ctx } => match breed_step(
            s,
            caller,
            parent1,
            parent2,
            ctx,
        ).0 {
            Ok(_) => None,
            Err(e) => Some(e),
        },
    }
}

/// The registry after a call.
pub open spec fn step(s: State, call: Call) -> State {
    match call {
        Call::Mint { owner, dna, gender, ctx } => mint_step(s, owner, dna, gender, ctx).1,
        Call::SetPrice { caller, id, new_price } => set_price_step(s, caller, id, new_price).1,
        Call::Transfer { from, to, id } => transfer_step(s, from, to, id).1,
        Call::Buy { buyer, id, limit_price, free, paid } => do_transfer_step(
            s,
            id,
            buyer,
            Some(limit_price),
            free,
            paid,
        ).1,
        Call::Breed { caller, parent1, parent2, ctx } => breed_step(
            s,
            caller,
            parent1,
            parent2,
            ctx,
        ).1,
    }
}

/// The registry after a sequence of calls, made in order.
pub open spec fn run(s: State, calls: Seq<Call>) -> State
    decreases calls.len(),
{
    if calls.len() == 0 {
        s
    } else {
        step(run(s, calls.drop_last()), calls.last())
    }
}

/// Whether every one of the calls is a mint for `owner`.
pub open spec fn mints_for(calls: Seq<Call>, owner: AccountId) -> bool {
    forall|i: int|
        0 <= i < calls.len() ==> (#[trigger] calls[i]) is Mint && calls[i]->Mint_owner == owner
}

/// Whether none of the calls, made in order from `s` on, asks for an identifier that is
/// taken or fails to generate a new one.
pub open spec fn identifiers_are_new(s: State, calls: Seq<Call>) -> bool {
    forall|k: int|
        0 <= k < calls.len() ==> refusal(run(s, #[trigger] calls.take(k)), calls[k]) != Some(
            Error::DuplicateKitty,
        )
}

} // verus!
