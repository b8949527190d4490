//! The list of kitties that one account holds: a bounded vector of identifiers, kept in
//! the order of arrival except where a removal moves the last entry into the gap.

use crate::dna::same_id;
use crate::types::{Error, KittyId};
use frame_support::traits::ConstU32;
use frame_support::BoundedVec;
use vstd::prelude::*;

verus! {

/// The bound that the list type itself enforces. The cap that a registry is configured
/// with can be anything up to it.
pub const OWNED_BOUND: u32 = 4294967295;

/// `frame_support::traits::ConstU32`: a type that stands for the number `N`. Nothing is
/// claimed of it; it only names the bound of a list.
#[verifier::external_type_specification]
#[verifier::external_body]
pub struct ExConstU32<const N: u32>(ConstU32<N>);

/// `frame_support::BoundedVec`: a vector that never grows past the bound `S`. Its
/// contents are opaque here and are spoken of through [`owned_ids`].
#[verifier::external_type_specification]
#[verifier::external_body]
#[verifier::reject_recursive_types(T)]
#[verifier::reject_recursive_types(S)]
pub struct ExBoundedVec<T, S>(BoundedVec<T, S>);

/// The identifiers that one account holds.
pub type OwnedList = BoundedVec<KittyId, ConstU32<OWNED_BOUND>>;

/// The entries of a `BoundedVec` of identifiers, in order.
pub uninterp spec fn owned_ids(list: OwnedList) -> Seq<KittyId>;

/// `s` without the entry at `index`: the last entry takes its place.
pub open spec fn swap_removed(s: Seq<KittyId>, index: int) -> Seq<KittyId>
    recommends
        0 <= index < s.len(),
{
    s.update(index, s.last()).drop_last()
}

/// `BoundedVec::new`: a list without entries.
#[verifier::external_body]
pub(crate) fn owned_new() -> (list: OwnedList)
    ensures
        owned_ids(list) == Seq::<KittyId>::empty(),
{
    BoundedVec::new()
}

/// `Deref::deref` of `BoundedVec`: the vector inside, which holds the same entries.
#[verifier::external_body]
pub(crate) fn owned_as_vec(list: &OwnedList) -> (v: &Vec<KittyId>)
    ensures
        v@ == owned_ids(*list),
{
    std::ops::Deref::deref(list)
}

/// `BoundedVec::try_push`: appends `id` where the list is shorter than the bound of its
/// type; otherwise hands `id` back and leaves the list alone.
#[verifier::external_body]
pub(crate) fn owned_try_push(list: &mut OwnedList, id: KittyId) -> (r: Result<(), KittyId>)
    ensures
        r is Ok <==> owned_ids(*old(list)).len() < OWNED_BOUND,
        r is Ok ==> owned_ids(*final(list)) == owned_ids(*old(list)).push(id),
        r is Err ==> r->Err_0 == id && owned_ids(*final(list)) == owned_ids(*old(list)),
{
    list.try_push(id)
}

/// `BoundedVec::swap_remove`: takes out the entry at `index` and puts the last entry in
/// its place. It panics on an index past the end, which `requires` rules out.
#[verifier::external_body]
pub(crate) fn owned_swap_remove(list: &mut OwnedList, index: usize) -> (id: KittyId)
    requires
        index < owned_ids(*old(list)).len(),
    ensures
        id == owned_ids(*old(list))[index as int],
        owned_ids(*final(list)) == swap_removed(owned_ids(*old(list)), index as int),
{
    list.swap_remove(index)
}

/// How many kitties the list holds.
pub fn owned_len(list: &OwnedList) -> (n: usize)
    ensures
        n == owned_ids(*list).len(),
{
    owned_as_vec(list).len()
}

/// Where `id` first occurs in the list.
pub fn position(list: &OwnedList, id: &KittyId) -> (found: Option<usize>)
    ensures
        match found {
            Some(i) => i < owned_ids(*list).len() && owned_ids(*list)[i as int] == *id && i
                == first_index(owned_ids(*list), *id),
            None => !owned_ids(*list).contains(*id),
        },
{
    let v = owned_as_vec(list);
    let mut i: usize = 0;
    while i < v.len()
        invariant
            i <= v.len(),
            v@ == owned_ids(*list),
            forall|j: int| 0 <= j < i ==> v@[j] != *id,
        decreases v.len() - i,
    {
        if same_id(&v[i], id) {
            proof {
                lemma_first_position(v@, *id, i as int);
            }
            return Some(i);
        }
        i += 1;
    }
    None
}

/// Appends `id` unless the list already holds `max` kitties.
pub fn try_add(list: &mut OwnedList, id: KittyId, max: u32) -> (r: Result<(), Error>)
    ensures
        r == if owned_ids(*old(list)).len() < max {
            Ok::<(), Error>(())
        } else {
            Err(Error::TooManyOwned)
        },
        owned_ids(*final(list)) == if owned_ids(*old(list)).len() < max {
            owned_ids(*old(list)).push(id)
        } else {
            owned_ids(*old(list))
        },
{
    if owned_len(list) >= max as usize {
        return Err(Error::TooManyOwned);
    }
    match owned_try_push(list, id) {
        Ok(()) => Ok(()),
        Err(_) => Err(Error::TooManyOwned),
    }
}

/// Takes `id` out of the list at its first occurrence; the last entry fills the gap.
pub fn remove(list: &mut OwnedList, id: &KittyId) -> (r: Result<(), Error>)
    ensures
        r == if owned_ids(*old(list)).contains(*id) {
            Ok::<(), Error>(())
        } else {
            Err(Error::NoKitty)
        },
        owned_ids(*final(list)) == if owned_ids(*old(list)).contains(*id) {
            swap_removed(owned_ids(*old(list)), first_index(owned_ids(*old(list)), *id))
        } else {
            owned_ids(*old(list))
        },
{
    match position(list, id) {
        Some(index) => {
            let _ = owned_swap_remove(list, index);
            Ok(())
        },
        None => Err(Error::NoKitty),
    }
}

/// The first position of `id` in `s`, or the length of `s` where it does not occur.
pub open spec fn first_index(s: Seq<KittyId>, id: KittyId) -> int
    decreases s.len(),
{
    if s.len() == 0 {
        0
    } else if s[0] == id {
        0
    } else {
        1 + first_index(s.drop_first(), id)
    }
}

/// An identifier that a list holds stands at its first position there.
pub proof fn lemma_first_index_of_member(s: Seq<KittyId>, id: KittyId)
    requires
        s.contains(id),
    ensures
        0 <= first_index(s, id) < s.len(),
        s[first_index(s, id)] == id,
    decreases s.len(),
{
    if s[0] != id {
        let rest = s.drop_first();
        let i = choose|i: int| 0 <= i < s.len() && s[i] == id;
        assert(rest[i - 1] == id);
        lemma_first_index_of_member(rest, id);
        assert(rest[first_index(rest, id)] == s[first_index(rest, id) + 1]);
    }
}

/// An entry that nothing equal precedes stands at the first position of its value.
pub proof fn lemma_first_position(s: Seq<KittyId>, id: KittyId, i: int)
    requires
        0 <= i < s.len(),
        s[i] == id,
        forall|j: int| 0 <= j < i ==> s[j] != id,
    ensures
        first_index(s, id) == i,
    decreases i,
{
    if i > 0 {
        let rest = s.drop_first();
        assert(rest[i - 1] == s[i]);
        assert forall|j: int| 0 <= j < i - 1 implies rest[j] != id by {
            assert(rest[j] == s[j + 1]);
        }
        lemma_first_position(rest, id, i - 1);
    }
}

} // verus!
