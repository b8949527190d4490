//! Identifiers and traits: how a fresh identifier is derived from the chain context,
//! how a gender is read off an identifier, and how two genomes recombine.

use crate::types::{ChainContext, Gender, KittyId};
use parity_scale_codec::Encode;
use vstd::prelude::*;

verus! {

/// The `width` low bytes of `x`, least significant first.
pub open spec fn le_bytes(x: nat, width: nat) -> Seq<u8>
    decreases width,
{
    if width == 0 {
        Seq::empty()
    } else {
        seq![(x % 256) as u8] + le_bytes(x / 256, (width - 1) as nat)
    }
}

/// The bytes that are hashed into an identifier: the beacon's output, then the call's
/// sequence number in four bytes, then the block height in eight, both little-endian.
pub open spec fn unique_payload(random: Seq<u8>, index: u32, block_number: u64) -> Seq<u8> {
    random + le_bytes(index as nat, 4) + le_bytes(block_number as nat, 8)
}

/// What `sp_io::hashing::blake2_128` gives for `data`: the BLAKE2b digest of sixteen
/// bytes. Equal data have equal digests; nothing more is assumed of it.
pub uninterp spec fn blake2_128_digest(data: Seq<u8>) -> [u8; 16];

/// The identifier that the context yields when its sequence number is replaced by `index`.
pub open spec fn dna_at(ctx: ChainContext, index: u32) -> KittyId {
    blake2_128_digest(unique_payload(ctx.random@, index, ctx.block_number))
}

/// The gender that an identifier stands for: male where its leading byte is even,
/// female where it is odd.
pub open spec fn gender_of(dna: KittyId) -> Gender {
    if dna[0] % 2 == 0 {
        Gender::Male
    } else {
        Gender::Female
    }
}

/// One byte of a child's genome: the first parent's where the random byte is even,
/// the second parent's where it is odd.
pub open spec fn mutated_fragment(dna_fragment1: u8, dna_fragment2: u8, random_value: u8) -> u8 {
    if random_value % 2 == 0 {
        dna_fragment1
    } else {
        dna_fragment2
    }
}

/// `child` takes each byte from `parent1` or `parent2` as the byte of `selector` at the
/// same position decides.
pub open spec fn is_recombination(
    child: KittyId,
    parent1: KittyId,
    parent2: KittyId,
    selector: KittyId,
) -> bool {
    forall|i: int|
        0 <= i < 16 ==> child[i] == mutated_fragment(parent1[i], parent2[i], #[trigger] selector[i])
}

/// The genome built up from `partial` by fixing the bytes from position `from` onwards.
pub open spec fn recombined_from(
    partial: KittyId,
    parent1: KittyId,
    parent2: KittyId,
    selector: KittyId,
    from: int,
) -> KittyId
    decreases 16 - from,
{
    if from < 0 || from >= 16 {
        partial
    } else {
        recombined_from(
            vstd::array::spec_array_update(
                partial,
                from,
                mutated_fragment(parent1[from], parent2[from], selector[from]),
            ),
            parent1,
            parent2,
            selector,
            from + 1,
        )
    }
}

/// The genome of a child: byte by byte its first parent's where the byte of `selector`
/// is even, its second parent's where that byte is odd.
pub open spec fn recombined(parent1: KittyId, parent2: KittyId, selector: KittyId) -> KittyId {
    recombined_from(selector, parent1, parent2, selector, 0)
}

/// `parity_scale_codec::Encode::encode` on the triple of a 32-byte array, a `u32` and a
/// `u64`. SCALE writes a tuple as its fields in order, a fixed array of bytes as those
/// bytes, and a fixed-width integer in little-endian order; the contract claims that
/// concatenation.
#[verifier::external_body]
fn encode_payload(random: &[u8; 32], index: u32, block_number: u64) -> (bytes: Vec<u8>)
    ensures
        bytes@ == unique_payload(random@, index, block_number),
{
    (*random, index, block_number).encode()
}

/// `sp_io::hashing::blake2_128`: the 128-bit BLAKE2b hash of `data`. The contract only
/// names the digest; it depends on nothing but the bytes hashed.
#[verifier::external_body]
fn blake2_128(data: &[u8]) -> (digest: [u8; 16])
    ensures
        digest == blake2_128_digest(data@),
{
    sp_io::hashing::blake2_128(data)
}

/// Whether two identifiers are the same.
pub fn same_id(a: &KittyId, b: &KittyId) -> (same: bool)
    ensures
        same == (*a == *b),
{
    let mut i: usize = 0;
    while i < 16
        invariant
            i <= 16,
            forall|j: int| 0 <= j < i ==> a[j] == b[j],
        decreases 16 - i,
    {
        if a[i] != b[i] {
            return false;
        }
        i += 1;
    }
    assert(*a =~= *b);
    true
}

/// Derives an identifier from the context, with `index` in place of its sequence number.
pub fn gen_dna(ctx: &ChainContext, index: u32) -> (dna: KittyId)
    ensures
        dna == dna_at(*ctx, index),
{
    let bytes = encode_payload(&ctx.random, index, ctx.block_number);
    blake2_128(bytes.as_slice())
}

/// Reads the gender off an identifier.
pub fn gen_gender(dna: &KittyId) -> (gender: Gender)
    ensures
        gender == gender_of(*dna),
{
    if dna[0] % 2 == 0 {
        Gender::Male
    } else {
        Gender::Female
    }
}

/// Picks one of two genome bytes by the parity of a random byte.
pub fn mutate_dna_fragment(dna_fragment1: u8, dna_fragment2: u8, random_value: u8) -> (fragment: u8)
    ensures
        fragment == mutated_fragment(dna_fragment1, dna_fragment2, random_value),
{
    if random_value % 2 == 0 {
        dna_fragment1
    } else {
        dna_fragment2
    }
}

/// Recombines the genomes of two parents, byte by byte, as `selector` decides.
pub fn breed_dna(parent1: &KittyId, parent2: &KittyId, selector: &KittyId) -> (child: KittyId)
    ensures
        child == recombined(*parent1, *parent2, *selector),
        is_recombination(child, *parent1, *parent2, *selector),
{
    proof {
        lemma_recombined(*parent1, *parent2, *selector);
    }
    let mut child: KittyId = *selector;
    let mut i: usize = 0;
    while i < 16
        invariant
            i <= 16,
            forall|j: int|
                0 <= j < i ==> child[j] == mutated_fragment(
                    parent1[j],
                    parent2[j],
                    #[trigger] selector[j],
                ),
        decreases 16 - i,
    {
        child[i] = mutate_dna_fragment(parent1[i], parent2[i], selector[i]);
        i += 1;
    }
    proof {
        lemma_recombination_is_unique(
            child,
            recombined(*parent1, *parent2, *selector),
            *parent1,
            *parent2,
            *selector,
        );
    }
    child
}

/// Building a genome from position `from` fixes the bytes from there on and keeps the rest.
proof fn lemma_recombined_from(
    partial: KittyId,
    parent1: KittyId,
    parent2: KittyId,
    selector: KittyId,
    from: int,
)
    requires
        0 <= from <= 16,
    ensures
        forall|i: int|
            0 <= i < 16 ==> (#[trigger] recombined_from(
                partial,
                parent1,
                parent2,
                selector,
                from,
            )[i]) == if i < from {
                partial[i]
            } else {
                mutated_fragment(parent1[i], parent2[i], selector[i])
            },
    decreases 16 - from,
{
    if from < 16 {
        let next = vstd::array::spec_array_update(
            partial,
            from,
            mutated_fragment(parent1[from], parent2[from], selector[from]),
        );
        assert(next@ == partial@.update(
            from,
            mutated_fragment(parent1[from], parent2[from], selector[from]),
        ));
        lemma_recombined_from(next, parent1, parent2, selector, from + 1);
        assert forall|i: int| 0 <= i < 16 implies (#[trigger] recombined_from(
            partial,
            parent1,
            parent2,
            selector,
            from,
        )[i]) == if i < from {
            partial[i]
        } else {
            mutated_fragment(parent1[i], parent2[i], selector[i])
        } by {
            assert(recombined_from(partial, parent1, parent2, selector, from)[i] == recombined_from(
                next,
                parent1,
                parent2,
                selector,
                from + 1,
            )[i]);
            assert(next[i] == next@[i]);
            assert(partial[i] == partial@[i]);
        }
    }
}

/// The genome that [`recombined`] names is a recombination of the parents.
pub proof fn lemma_recombined(parent1: KittyId, parent2: KittyId, selector: KittyId)
    ensures
        is_recombination(recombined(parent1, parent2, selector), parent1, parent2, selector),
{
    lemma_recombined_from(selector, parent1, parent2, selector, 0);
    let child = recombined(parent1, parent2, selector);
    assert forall|i: int| 0 <= i < 16 implies child[i] == mutated_fragment(
        parent1[i],
        parent2[i],
        #[trigger] selector[i],
    ) by {
        assert(recombined_from(selector, parent1, parent2, selector, 0)[i] == mutated_fragment(
            parent1[i],
            parent2[i],
            selector[i],
        ));
    }
}

/// A recombined genome has, at every position, the byte of one of its parents.
pub proof fn lemma_recombination_takes_parent_bytes(
    child: KittyId,
    parent1: KittyId,
    parent2: KittyId,
    selector: KittyId,
)
    requires
        is_recombination(child, parent1, parent2, selector),
    ensures
        forall|i: int| 0 <= i < 16 ==> child[i] == parent1[i] || child[i] == parent2[i],
{
    assert forall|i: int| 0 <= i < 16 implies child[i] == parent1[i] || child[i] == parent2[i] by {
        assert(child[i] == mutated_fragment(parent1[i], parent2[i], selector[i]));
    }
}

/// Two genomes recombined under one selector give one child.
pub proof fn lemma_recombination_is_unique(
    a: KittyId,
    b: KittyId,
    parent1: KittyId,
    parent2: KittyId,
    selector: KittyId,
)
    requires
        is_recombination(a, parent1, parent2, selector),
        is_recombination(b, parent1, parent2, selector),
    ensures
        a == b,
{
    assert forall|i: int| 0 <= i < 16 implies a[i] == b[i] by {
        assert(a[i] == mutated_fragment(parent1[i], parent2[i], selector[i]));
        assert(b[i] == mutated_fragment(parent1[i], parent2[i], selector[i]));
    }
    assert(a =~= b);
}

} // verus!
