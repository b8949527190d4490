//! What holds of the registry whatever is done to it.

use crate::dna::{
    dna_at, gender_of, lemma_recombination_takes_parent_bytes, lemma_recombined, recombined,
};
use crate::model::{
    balance_after_step, breed_step, do_transfer_step, first_fresh, fresh_id, identifiers_are_new,
    mint_check, mint_kitty_step, mint_step, minted, mints_for, moved, next_index, refusal, run,
    sequence_numbers, set_price_step, step, transfer_step, Call, State,
};
use crate::owned::{first_index, lemma_first_index_of_member, swap_removed};
use crate::types::{AccountId, Balance, ChainContext, Config, Error, Event, Gender, KittyId};
use vstd::prelude::*;

verus! {

/// The registry without kitties meets the invariant.
pub proof fn lemma_empty_inv(config: Config)
    ensures
        State::empty(config).inv(),
{
    let s = State::empty(config);
    assert forall|who: AccountId| #[trigger] s.list(who).no_duplicates() by {}
}

/// The counter plays no part in the invariant.
pub proof fn lemma_inv_ignores_count(s: State, count: u64)
    requires
        s.inv(),
    ensures
        (State { count, ..s }).inv(),
{
    let t = State { count, ..s };
    assert forall|who: AccountId| #[trigger] t.list(who) == s.list(who) by {}
}

/// Recording a new kitty keeps the invariant.
pub proof fn lemma_minted_inv(
    s: State,
    owner: AccountId,
    id: KittyId,
    dna: KittyId,
    gender: Gender,
)
    requires
        s.inv(),
        mint_check(s, owner, id) is Ok,
    ensures
        minted(s, owner, id, dna, gender).inv(),
{
    let t = minted(s, owner, id, dna, gender);
    let old_list = s.list(owner);
    let new_list = old_list.push(id);
    assert(t.list(owner) == new_list);
    assert forall|who: AccountId| who != owner implies #[trigger] t.list(who) == s.list(who) by {}
    // The new identifier was not listed anywhere.
    assert forall|who: AccountId, i: int| 0 <= i < s.list(who).len() implies #[trigger] s.list(
        who,
    )[i] != id by {
        assert(s.kitties.contains_key(s.list(who)[i]));
    }
    assert forall|k: KittyId| #[trigger] t.kitties.contains_key(k) implies t.kitties[k].id == k
        && t.list(t.kitties[k].owner).contains(k) by {
        if k == id {
            assert(new_list[old_list.len() as int] == id);
        } else {
            assert(s.kitties.contains_key(k));
            let o = s.kitties[k].owner;
            let j = choose|j: int| 0 <= j < s.list(o).len() && s.list(o)[j] == k;
            if o == owner {
                assert(new_list[j] == k);
            } else {
                assert(t.list(o)[j] == k);
            }
        }
    }
    assert forall|who: AccountId, i: int| 0 <= i < t.list(who).len() implies t.kitties.contains_key(
        #[trigger] t.list(who)[i],
    ) && t.kitties[t.list(who)[i]].owner == who by {
        if who == owner {
            if i < old_list.len() {
                assert(new_list[i] == old_list[i]);
                assert(s.kitties.contains_key(s.list(who)[i]));
            }
        } else {
            assert(s.kitties.contains_key(s.list(who)[i]));
        }
    }
    assert forall|who: AccountId| #[trigger] t.list(who).no_duplicates() by {
        assert(s.list(who).no_duplicates());
        if who == owner {
            assert forall|i: int, j: int|
                0 <= i < new_list.len() && 0 <= j < new_list.len() && i != j implies new_list[i]
                != new_list[j] by {
                if i < old_list.len() {
                    assert(s.list(owner)[i] != id);
                }
                if j < old_list.len() {
                    assert(s.list(owner)[j] != id);
                }
            }
        }
    }
    assert forall|who: AccountId| #[trigger]
        t.list(who).len() <= t.config.max_kitties_owned by {
        assert(s.list(who).len() <= s.config.max_kitties_owned);
    }
}

/// A new price keeps the invariant.
pub proof fn lemma_set_price_inv(
    s: State,
    caller: AccountId,
    id: KittyId,
    new_price: Option<Balance>,
)
    requires
        s.inv(),
    ensures
        set_price_step(s, caller, id, new_price).1.inv(),
{
    let t = set_price_step(s, caller, id, new_price).1;
    assert forall|who: AccountId| #[trigger] t.list(who) == s.list(who) by {}
}

/// Handing a kitty to an account that has room for it keeps the invariant, and the
/// kitty is then not for sale.
pub proof fn lemma_moved_inv(s: State, id: KittyId, to: AccountId)
    requires
        s.inv(),
        s.kitties.contains_key(id),
        s.kitties[id].owner != to,
        s.list(to).len() < s.config.max_kitties_owned,
    ensures
        moved(s, id, to).inv(),
        moved(s, id, to).kitties[id].price is None,
        moved(s, id, to).kitties[id].owner == to,
{
    let t = moved(s, id, to);
    let from = s.kitties[id].owner;
    let src = s.list(from);
    let at = first_index(src, id);
    lemma_first_index_of_member(src, id);
    let rest = swap_removed(src, at);
    let dst = s.list(to);
    let grown = dst.push(id);
    let last = src.len() - 1;
    assert(s.list(from).no_duplicates());
    assert(s.list(to).no_duplicates());
    assert(t.list(from) == rest);
    assert(t.list(to) == grown);
    assert forall|who: AccountId| who != from && who != to implies #[trigger] t.list(who)
        == s.list(who) by {}
    // The kitty was listed with its owner only, and there only once.
    assert forall|i: int| 0 <= i < dst.len() implies dst[i] != id by {
        assert(s.kitties.contains_key(s.list(to)[i]));
    }
    assert forall|i: int| 0 <= i < rest.len() implies rest[i] != id && exists|j: int|
        0 <= j < src.len() && src[j] == #[trigger] rest[i] by {
        if i == at {
            assert(rest[i] == src[last]);
        } else {
            assert(rest[i] == src[i]);
        }
    }
    assert forall|k: KittyId| #[trigger] t.kitties.contains_key(k) implies t.kitties[k].id == k
        && t.list(t.kitties[k].owner).contains(k) by {
        if k == id {
            assert(grown[dst.len() as int] == id);
        } else {
            assert(s.kitties.contains_key(k));
            let o = s.kitties[k].owner;
            let j = choose|j: int| 0 <= j < s.list(o).len() && s.list(o)[j] == k;
            if o == from {
                if j == last {
                    assert(rest[at] == k);
                } else {
                    assert(rest[j] == k);
                }
            } else if o == to {
                assert(grown[j] == k);
            } else {
                assert(t.list(o)[j] == k);
            }
        }
    }
    assert forall|who: AccountId, i: int| 0 <= i < t.list(who).len() implies t.kitties.contains_key(
        #[trigger] t.list(who)[i],
    ) && t.kitties[t.list(who)[i]].owner == who by {
        if who == from {
            let j = choose|j: int| 0 <= j < src.len() && src[j] == rest[i];
            assert(s.kitties.contains_key(s.list(from)[j]));
        } else if who == to {
            if i < dst.len() {
                assert(grown[i] == dst[i]);
                assert(s.kitties.contains_key(s.list(to)[i]));
            }
        } else {
            assert(s.kitties.contains_key(s.list(who)[i]));
        }
    }
    assert forall|who: AccountId| #[trigger] t.list(who).no_duplicates() by {
        assert(s.list(who).no_duplicates());
        if who == from {
            assert forall|i: int, j: int|
                0 <= i < rest.len() && 0 <= j < rest.len() && i != j implies rest[i]
                != rest[j] by {
                let i0 = if i == at {
                    last
                } else {
                    i
                };
                let j0 = if j == at {
                    last
                } else {
                    j
                };
                assert(rest[i] == src[i0]);
                assert(rest[j] == src[j0]);
            }
        } else if who == to {
            assert forall|i: int, j: int|
                0 <= i < grown.len() && 0 <= j < grown.len() && i != j implies grown[i]
                != grown[j] by {}
        }
    }
    assert forall|who: AccountId| #[trigger]
        t.list(who).len() <= t.config.max_kitties_owned by {
        assert(s.list(who).len() <= s.config.max_kitties_owned);
    }
}

/// A generated identifier is one that no kitty has.
pub proof fn lemma_fresh_id_is_new(s: State, ctx: ChainContext)
    ensures
        fresh_id(s, ctx) matches Some(id) ==> !s.kitties.contains_key(id),
{
    lemma_first_fresh_is_new(s, ctx, ctx.extrinsic_index, sequence_numbers());
}

proof fn lemma_first_fresh_is_new(s: State, ctx: ChainContext, index: u32, left: nat)
    ensures
        first_fresh(s, ctx, index, left) matches Some(id) ==> !s.kitties.contains_key(id),
    decreases left,
{
    if left > 0 && s.kitties.contains_key(dna_at(ctx, index)) {
        lemma_first_fresh_is_new(s, ctx, next_index(index), (left - 1) as nat);
    }
}

/// Every call leaves the invariant in place, whether it is carried out or refused.
pub proof fn lemma_step_preserves_inv(s: State, call: Call)
    requires
        s.inv(),
    ensures
        step(s, call).inv(),
{
    match call {
        Call::Mint { owner, dna, gender, ctx } => {
            let r = mint_step(s, owner, dna, gender, ctx);
            if r.0 is Ok {
                let id = r.0->Ok_0;
                let g = if gender is Some {
                    gender->0
                } else {
                    gender_of(id)
                };
                lemma_minted_inv(s, owner, id, id, g);
            }
        },
        Call::SetPrice { caller, id, new_price } => {
            lemma_set_price_inv(s, caller, id, new_price);
        },
        Call::Transfer { from, to, id } => {
            if transfer_step(s, from, to, id).0 is Ok {
                lemma_moved_inv(s, id, to);
            }
        },
        Call::Buy { buyer, id, limit_price, free, paid } => {
            if do_transfer_step(s, id, buyer, Some(limit_price), free, paid).0 is Ok {
                lemma_moved_inv(s, id, buyer);
            }
        },
        Call::Breed { caller, parent1, parent2, ctx } => {
            if breed_step(s, caller, parent1, parent2, ctx).0 is Ok {
                let id = fresh_id(s, ctx)->0;
                lemma_minted_inv(
                    s,
                    caller,
                    id,
                    recombined(s.kitties[parent1].dna, s.kitties[parent2].dna, id),
                    gender_of(id),
                );
            }
        },
    }
}

/// The invariant holds after every sequence of calls.
pub proof fn lemma_run_preserves_inv(s: State, calls: Seq<Call>)
    requires
        s.inv(),
    ensures
        run(s, calls).inv(),
    decreases calls.len(),
{
    if calls.len() > 0 {
        lemma_run_preserves_inv(s, calls.drop_last());
        lemma_step_preserves_inv(run(s, calls.drop_last()), calls.last());
    }
}

/// Minting a kitty and putting it up for sale keeps the invariant.
pub proof fn lemma_mint_kitty_inv(s: State, sender: AccountId, price: Balance, ctx: ChainContext)
    requires
        s.inv(),
    ensures
        mint_kitty_step(s, sender, price, ctx).1.inv(),
{
    let minted = mint_step(s, sender, None, None, ctx);
    if minted.0 is Ok {
        lemma_step_preserves_inv(
            s,
            Call::Mint { owner: sender, dna: None, gender: None, ctx },
        );
        lemma_set_price_inv(minted.1, sender, minted.0->Ok_0, Some(price));
    }
}

/// A refused call leaves the registry exactly as it was.
pub proof fn lemma_refused_call_changes_nothing(s: State, call: Call)
    requires
        refusal(s, call) is Some,
    ensures
        step(s, call) == s,
{
}

/// No call takes a kitty out of the store or changes its identifier, genome or gender.
pub proof fn lemma_kitties_are_permanent(s: State, call: Call, id: KittyId)
    requires
        s.inv(),
        s.kitties.contains_key(id),
    ensures
        step(s, call).kitties.contains_key(id),
        step(s, call).kitties[id].id == id,
        step(s, call).kitties[id].dna == s.kitties[id].dna,
        step(s, call).kitties[id].gender == s.kitties[id].gender,
{
    match call {
        Call::Mint { owner, dna, gender, ctx } => {
            lemma_fresh_id_is_new(s, ctx);
        },
        Call::Breed { caller, parent1, parent2, ctx } => {
            lemma_fresh_id_is_new(s, ctx);
        },
        _ => {},
    }
}

/// A kitty is listed once: by one account, at one position.
pub proof fn lemma_listed_once(s: State, a: AccountId, i: int, b: AccountId, j: int)
    requires
        s.inv(),
        0 <= i < s.list(a).len(),
        0 <= j < s.list(b).len(),
        s.list(a)[i] == s.list(b)[j],
    ensures
        a == b,
        i == j,
{
    assert(s.kitties[s.list(a)[i]].owner == a);
    assert(s.kitties[s.list(b)[j]].owner == b);
    assert(s.list(a).no_duplicates());
}

/// The counter never goes down: it goes up by one with every kitty that is minted or
/// bred, and stays where it is otherwise.
pub proof fn lemma_count_follows_mints(s: State, call: Call)
    ensures
        step(s, call).count == if refusal(s, call) is None && (call is Mint || call is Breed) {
            s.count + 1
        } else {
            s.count as int
        },
        step(s, call).config == s.config,
{
}

/// A kitty that was minted or bred has an identifier that no kitty had before.
pub proof fn lemma_new_kitty_is_new(s: State, call: Call, id: KittyId)
    requires
        step(s, call).kitties.contains_key(id),
        !s.kitties.contains_key(id),
    ensures
        call is Mint || call is Breed,
        refusal(s, call) is None,
        step(s, call).kitties.dom() == s.kitties.dom().insert(id),
{
    assert(step(s, call).kitties.dom() =~= s.kitties.dom().insert(id));
}

/// After a gift or a sale the kitty belongs to the recipient and is not for sale.
pub proof fn lemma_moved_kitty_is_not_for_sale(s: State, call: Call)
    requires
        s.inv(),
        refusal(s, call) is None,
    ensures
        call matches Call::Transfer { from, to, id } ==> step(s, call).kitties[id].price is None
            && step(s, call).kitties[id].owner == to,
        call matches Call::Buy { buyer, id, limit_price, free, paid } ==> step(
            s,
            call,
        ).kitties[id].price is None && step(s, call).kitties[id].owner == buyer,
{
}

/// On a new registry, mints for one account succeed until the account holds as many
/// kitties as it may, and are refused from then on because it holds too many; a refused
/// mint leaves the counter where it was, at the cap. This holds of mints whose
/// identifiers are new.
pub proof fn lemma_mint_until_cap(config: Config, owner: AccountId, calls: Seq<Call>)
    requires
        mints_for(calls, owner),
        identifiers_are_new(State::empty(config), calls),
    ensures
        ({
            let start = State::empty(config);
            let cap = config.max_kitties_owned as int;
            let end = run(start, calls);
            let done = if calls.len() <= cap {
                calls.len() as int
            } else {
                cap
            };
            &&& end.inv()
            &&& end.config == config
            &&& end.count == done
            &&& end.list(owner).len() == done
            &&& forall|n: int|
                0 <= n < calls.len() ==> refusal(run(start, #[trigger] calls.take(n)), calls[n])
                    == if n < cap {
                    None::<Error>
                } else {
                    Some(Error::TooManyOwned)
                }
        }),
    decreases calls.len(),
{
    let start = State::empty(config);
    let cap = config.max_kitties_owned as int;
    if calls.len() == 0 {
        lemma_empty_inv(config);
    } else {
        let front = calls.drop_last();
        let last = calls.last();
        let m = front.len() as int;
        assert forall|k: int| 0 <= k < front.len() implies #[trigger] front.take(k)
            == calls.take(k) && front[k] == calls[k] by {
            assert(front.take(k) =~= calls.take(k));
        }
        assert(mints_for(front, owner)) by {
            assert forall|i: int| 0 <= i < front.len() implies (#[trigger] front[i]) is Mint
                && front[i]->Mint_owner == owner by {
                assert(front[i] == calls[i]);
            }
        }
        assert(identifiers_are_new(start, front)) by {
            assert forall|k: int| 0 <= k < front.len() implies refusal(
                run(start, #[trigger] front.take(k)),
                front[k],
            ) != Some(Error::DuplicateKitty) by {
                assert(front.take(k) == calls.take(k));
            }
        }
        lemma_mint_until_cap(config, owner, front);
        let mid = run(start, front);
        assert(calls.take(m) =~= front);
        assert(calls[m] == last);
        assert(refusal(run(start, calls.take(m)), calls[m]) != Some(Error::DuplicateKitty));
        assert(last is Mint && last->Mint_owner == owner);
        let dna = last->Mint_dna;
        let gender = last->Mint_gender;
        let ctx = last->Mint_ctx;
        let outcome = mint_step(mid, owner, dna, gender, ctx);
        assert(run(start, calls) == outcome.1);
        assert(mid.list(owner).len() <= cap);
        if outcome.0 is Ok {
            let id = outcome.0->Ok_0;
            let g = if gender is Some {
                gender->0
            } else {
                gender_of(id)
            };
            lemma_minted_inv(mid, owner, id, id, g);
        }
        assert forall|n: int| 0 <= n < calls.len() implies refusal(
            run(start, #[trigger] calls.take(n)),
            calls[n],
        ) == if n < cap {
            None::<Error>
        } else {
            Some(Error::TooManyOwned)
        } by {
            if n < m {
                assert(front.take(n) == calls.take(n));
                assert(front[n] == calls[n]);
            }
        }
    }
}

/// A gift of a kitty to the account that owns it is refused as a transfer to oneself,
/// and nothing changes.
pub proof fn lemma_self_transfer_is_refused(s: State, owner: AccountId, id: KittyId)
    requires
        s.kitties.contains_key(id),
        s.kitties[id].owner == owner,
    ensures
        transfer_step(s, owner, owner, id) == (Err::<Event, Error>(Error::TransferToSelf), s),
{
}

/// A purchase whose limit is below the asking price is refused for that reason: the
/// registry stays as it is and no balance changes.
pub proof fn lemma_low_bid_is_refused(
    s: State,
    buyer: AccountId,
    id: KittyId,
    limit_price: Balance,
    free: Balance,
    paid: bool,
)
    requires
        s.kitties.contains_key(id),
        s.kitties[id].owner != buyer,
        s.kitties[id].price matches Some(asking) && limit_price < asking,
    ensures
        do_transfer_step(s, id, buyer, Some(limit_price), free, paid) == (
            Err::<Event, Error>(Error::BidPriceTooLow),
            s,
        ),
        forall|who: AccountId, before: Balance|
            balance_after_step(s, id, buyer, Some(limit_price), false, who, before) == before,
{
}

/// Where the policy asks for parents of opposite gender, two parents of one gender
/// cannot breed, and nothing changes.
pub proof fn lemma_same_gender_cannot_breed(
    s: State,
    caller: AccountId,
    parent1: KittyId,
    parent2: KittyId,
    ctx: ChainContext,
)
    requires
        s.config.opposite_genders,
        s.kitties.contains_key(parent1),
        s.kitties.contains_key(parent2),
        s.config.breeder_owns_parents ==> s.kitties[parent1].owner == caller
            && s.kitties[parent2].owner == caller,
        s.kitties[parent1].gender == s.kitties[parent2].gender,
    ensures
        breed_step(s, caller, parent1, parent2, ctx) == (Err::<Event, Error>(Error::CantBreed), s),
{
}

/// Parents of opposite gender that the caller owns breed, provided an identifier can be
/// generated and the caller has room for the child: the child is stored for the caller,
/// and each byte of its genome is the byte of one of its parents at that position.
pub proof fn lemma_opposite_genders_breed(
    s: State,
    caller: AccountId,
    parent1: KittyId,
    parent2: KittyId,
    ctx: ChainContext,
)
    requires
        s.inv(),
        s.kitties.contains_key(parent1),
        s.kitties.contains_key(parent2),
        s.config.breeder_owns_parents ==> s.kitties[parent1].owner == caller
            && s.kitties[parent2].owner == caller,
        s.kitties[parent1].gender != s.kitties[parent2].gender,
        fresh_id(s, ctx) is Some,
        s.count < u64::MAX,
        s.list(caller).len() < s.config.max_kitties_owned,
    ensures
        ({
            let id = fresh_id(s, ctx)->0;
            let after = breed_step(s, caller, parent1, parent2, ctx).1;
            &&& breed_step(s, caller, parent1, parent2, ctx).0 == Ok::<Event, Error>(
                Event::Created { kitty: id, owner: caller },
            )
            &&& after.kitties.contains_key(id)
            &&& after.kitties[id].owner == caller
            &&& forall|i: int|
                0 <= i < 16 ==> after.kitties[id].dna[i] == s.kitties[parent1].dna[i]
                    || after.kitties[id].dna[i] == s.kitties[parent2].dna[i]
        }),
{
    let id = fresh_id(s, ctx)->0;
    lemma_fresh_id_is_new(s, ctx);
    let dna = recombined(s.kitties[parent1].dna, s.kitties[parent2].dna, id);
    lemma_recombined(s.kitties[parent1].dna, s.kitties[parent2].dna, id);
    lemma_recombination_takes_parent_bytes(
        dna,
        s.kitties[parent1].dna,
        s.kitties[parent2].dna,
        id,
    );
}

} // verus!
