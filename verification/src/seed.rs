//! Ids that are handed out one after the other.

use vstd::prelude::*;

verus! {

/// The id after `seed`; the ids start over after the last one.
pub open spec fn next_seed(seed: u32) -> u32 {
    if seed == u32::MAX {
        0
    } else {
        (seed + 1) as u32
    }
}

/// The seed after a number of ids.
pub open spec fn seed_after(seed: u32, ids: nat) -> u32
    decreases ids,
{
    if ids == 0 {
        seed
    } else {
        next_seed(seed_after(seed, (ids - 1) as nat))
    }
}

/// Hands out the next id.
pub fn next_id(seed: &mut u32) -> (r: u32)
    ensures
        r == *old(seed),
        *final(seed) == next_seed(*old(seed)),
{
    let id: u32 = *seed;
    *seed = id.wrapping_add(1);
    id
}

/// An id comes round only after every other one was used: any 2^32 ids in a row differ.
pub proof fn law_ids_differ(seed: u32, i: nat, j: nat)
    requires
        i < j,
    ensures
        seed_after(seed, i) == (seed + i) % 0x1_0000_0000,
        j - i < 0x1_0000_0000 ==> seed_after(seed, i) != seed_after(seed, j),
        j - i == 0x1_0000_0000 ==> seed_after(seed, i) == seed_after(seed, j),
{
    lemma_seed_after(seed, i);
    lemma_seed_after(seed, j);
}

proof fn lemma_seed_after(seed: u32, ids: nat)
    ensures
        seed_after(seed, ids) == (seed + ids) % 0x1_0000_0000,
    decreases ids,
{
    if ids > 0 {
        lemma_seed_after(seed, (ids - 1) as nat);
    }
}

/// The id after an id is the next number; after the largest comes zero.
pub proof fn law_next_id_counts_on(seed: u32)
    ensures
        next_seed(seed) == (seed + 1) % 0x1_0000_0000,
        next_seed(seed) != seed,
{
}

} // verus!
