//! Sets of entity indices, kept in the hierarchical bit set that the
//! component store uses for its own masks.

use vstd::prelude::*;
use specs::BitSet;

verus! {

/// The number of indices that a bit set has room for: four layers of
/// words, so the fourth power of the bits in a machine word.
pub open spec fn index_limit() -> u32 {
    if usize::BITS == 64 {
        0x100_0000
    } else {
        0x10_0000
    }
}

/// Computes [`index_limit`].
pub fn max_index() -> (limit: u32)
    ensures
        limit == index_limit(),
{
    if usize::BITS == 64 {
        0x100_0000
    } else {
        0x10_0000
    }
}

/// `specs::BitSet` (`hibitset::BitSet`): a set of `u32` indices.
#[verifier::external_type_specification]
#[verifier::external_body]
pub struct ExBitSet(specs::BitSet);

/// The indices that a bit set holds.
pub uninterp spec fn members(set: BitSet) -> Set<u32>;

/// `BitSet::new`: a fresh bit set holds no index.
#[verifier::external_body]
pub(crate) fn bitset_new() -> (set: BitSet)
    ensures
        members(set) == Set::<u32>::empty(),
{
    BitSet::new()
}

/// `BitSet::add`: puts `id` into the set, leaves every other index as it
/// was, and answers whether `id` was in the set before. The bit set
/// panics on an index beyond its capacity, so `id` has to be below it.
#[verifier::external_body]
pub(crate) fn bitset_add(set: &mut BitSet, id: u32) -> (was_present: bool)
    requires
        id < index_limit(),
    ensures
        members(*final(set)) == members(*old(set)).insert(id),
        was_present == members(*old(set)).contains(id),
{
    set.add(id)
}

/// `BitSet::contains`: whether `id` is in the set.
#[verifier::external_body]
pub(crate) fn bitset_contains(set: &BitSet, id: u32) -> (present: bool)
    ensures
        present == members(*set).contains(id),
{
    set.contains(id)
}

/// `BitSet::clear`: wipes the set.
#[verifier::external_body]
pub(crate) fn bitset_clear(set: &mut BitSet)
    ensures
        members(*final(set)) == Set::<u32>::empty(),
{
    set.clear()
}

} // verus!
