//! Bootstrap: the kitties that a registry starts with.

use crate::currency::Currency;
use crate::model::{mint_step, State};
use crate::pallet::Pallet;
use crate::types::{AccountId, ChainContext, Config, Error, Gender, KittyId};
use vstd::prelude::*;

verus! {

/// One kitty of the initial population: its owner, and where they are fixed in advance
/// its identifier and its gender.
pub type GenesisKitty = (AccountId, Option<KittyId>, Option<Gender>);

/// The initial population of a registry, in the order in which it is minted.
pub struct GenesisConfig {
    pub kitties: Vec<GenesisKitty>,
}

/// The registry that the entries build when minted in order on top of `s`, or the error
/// of the first entry that cannot be minted.
pub open spec fn genesis_state(s: State, entries: Seq<GenesisKitty>, ctx: ChainContext) -> Result<
    State,
    Error,
>
    decreases entries.len(),
{
    if entries.len() == 0 {
        Ok(s)
    } else {
        match genesis_state(s, entries.drop_last(), ctx) {
            Err(e) => Err(e),
            Ok(before) => {
                let entry = entries.last();
                let minted = mint_step(before, entry.0, entry.1, entry.2, ctx);
                match minted.0 {
                    Ok(_) => Ok(minted.1),
                    Err(e) => Err(e),
                }
            },
        }
    }
}

/// Once an entry has failed, the bootstrap fails with the error of that entry however
/// many entries follow.
pub proof fn lemma_genesis_fails_at_first_error(
    s: State,
    entries: Seq<GenesisKitty>,
    ctx: ChainContext,
    k: int,
)
    requires
        0 <= k <= entries.len(),
        genesis_state(s, entries.take(k), ctx) is Err,
    ensures
        genesis_state(s, entries, ctx) == genesis_state(s, entries.take(k), ctx),
    decreases entries.len() - k,
{
    if k < entries.len() {
        assert(entries.take(k + 1).drop_last() =~= entries.take(k));
        lemma_genesis_fails_at_first_error(s, entries, ctx, k + 1);
    } else {
        assert(entries.take(k) =~= entries);
    }
}

impl Default for GenesisConfig {
    /// No initial population.
    fn default() -> (genesis: GenesisConfig)
        ensures
            genesis.kitties@ == Seq::<GenesisKitty>::empty(),
    {
        GenesisConfig { kitties: Vec::new() }
    }
}

impl GenesisConfig {
    /// Builds the registry that a chain starts with: mints the entries in order, each
    /// not for sale. The first entry that cannot be minted, because its identifier is
    /// taken or its owner holds too many kitties, fails the whole bootstrap.
    pub fn build<C: Currency>(&self, config: Config, currency: C, ctx: &ChainContext) -> (r: Result<
        Pallet<C>,
        Error,
    >)
        ensures
            match genesis_state(State::empty(config), self.kitties@, *ctx) {
                Ok(s) => r is Ok && r->Ok_0@ == s && s.inv() && r->Ok_0.bank() == currency,
                Err(e) => r is Err && r->Err_0 == e,
            },
    {
        let ghost start = State::empty(config);
        let ghost bank = currency;
        let mut pallet = Pallet::new(config, currency);
        let mut i: usize = 0;
        while i < self.kitties.len()
            invariant
                i <= self.kitties.len(),
                start == State::empty(config),
                pallet@.inv(),
                pallet.bank() == bank,
                genesis_state(start, self.kitties@.take(i as int), *ctx) == Ok::<State, Error>(
                    pallet@,
                ),
            decreases self.kitties.len() - i,
        {
            let entry = self.kitties[i];
            let minted = pallet.mint(entry.0, entry.1, entry.2, ctx);
            proof {
                assert(self.kitties@.take(i + 1).drop_last() =~= self.kitties@.take(i as int));
                assert(self.kitties@.take(i + 1).last() == entry);
            }
            match minted {
                Ok(_) => {},
                Err(e) => {
                    proof {
                        lemma_genesis_fails_at_first_error(start, self.kitties@, *ctx, i + 1);
                    }
                    return Err(e);
                },
            }
            i += 1;
        }
        proof {
            assert(self.kitties@.take(i as int) =~= self.kitties@);
        }
        Ok(pallet)
    }
}

} // verus!
