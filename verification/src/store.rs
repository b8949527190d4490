//! The asset store: every kitty under its identifier. Kitties are added and rewritten,
//! never taken out.

use crate::types::{Kitty, KittyId};
use std::collections::HashMap;
use vstd::bytes::{
    lemma_auto_spec_u128_to_from_le_bytes, spec_u128_from_le_bytes, spec_u128_to_le_bytes,
    u128_from_le_bytes,
};
use vstd::prelude::*;

verus! {

/// The number under which the store files an identifier: its bytes read as a
/// little-endian integer.
pub open spec fn key_of(id: KittyId) -> u128 {
    spec_u128_from_le_bytes(id@)
}

/// Different identifiers are filed under different numbers.
pub proof fn lemma_key_of_is_injective(a: KittyId, b: KittyId)
    requires
        key_of(a) == key_of(b),
    ensures
        a == b,
{
    lemma_auto_spec_u128_to_from_le_bytes();
    assert(a@.len() == 16 && b@.len() == 16);
    assert(spec_u128_to_le_bytes(spec_u128_from_le_bytes(a@)) == a@);
    assert(spec_u128_to_le_bytes(spec_u128_from_le_bytes(b@)) == b@);
    assert(a =~= b);
}

/// The kitties of a registry, each under its identifier.
pub struct AssetStore {
    kitties: HashMap<u128, Kitty>,
}

impl View for AssetStore {
    type V = Map<KittyId, Kitty>;

    closed spec fn view(&self) -> Map<KittyId, Kitty> {
        Map::new(
            |id: KittyId| self.kitties@.contains_key(key_of(id)),
            |id: KittyId| self.kitties@[key_of(id)],
        )
    }
}

fn key(id: &KittyId) -> (k: u128)
    ensures
        k == key_of(*id),
{
    u128_from_le_bytes(id.as_slice())
}

impl AssetStore {
    /// A store without kitties.
    pub fn new() -> (store: AssetStore)
        ensures
            store@ == Map::<KittyId, Kitty>::empty(),
    {
        let store = AssetStore { kitties: HashMap::new() };
        assert(store@ =~= Map::<KittyId, Kitty>::empty());
        store
    }

    /// The kitty stored under `id`.
    pub fn get(&self, id: &KittyId) -> (found: Option<Kitty>)
        ensures
            found == if self@.contains_key(*id) {
                Some(self@[*id])
            } else {
                None
            },
    {
        match self.kitties.get(&key(id)) {
            Some(kitty) => Some(*kitty),
            None => None,
        }
    }

    /// Whether a kitty is stored under `id`.
    pub fn contains(&self, id: &KittyId) -> (found: bool)
        ensures
            found == self@.contains_key(*id),
    {
        self.kitties.contains_key(&key(id))
    }

    /// Stores `kitty` under `id`, in place of what was stored there.
    pub fn put(&mut self, id: KittyId, kitty: Kitty)
        ensures
            final(self)@ == old(self)@.insert(id, kitty),
    {
        self.kitties.insert(key(&id), kitty);
        proof {
            assert forall|other: KittyId| other != id implies key_of(other) != key_of(id) by {
                if key_of(other) == key_of(id) {
                    lemma_key_of_is_injective(other, id);
                }
            }
            assert(self@ =~= old(self)@.insert(id, kitty));
        }
    }
}

} // verus!
