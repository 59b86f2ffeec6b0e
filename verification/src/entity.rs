//! Entity identifiers.

use vstd::prelude::*;

verus! {

/// An entity of the component store: a slot index together with the
/// generation of that slot, so that a reference to a deleted entity can be
/// told apart from the entity that reuses its slot.
#[derive(Copy, Clone, PartialEq, Eq, Structural, Debug, Hash)]
pub struct Entity {
    pub id: u32,
    pub generation: i32,
}

impl Entity {
    /// The entity packed into one integer: the generation, shifted to be
    /// non-negative, in the upper half and the index in the lower half.
    pub open spec fn spec_key(self) -> u64 {
        ((self.generation + 0x8000_0000) * 0x1_0000_0000 + self.id) as u64
    }

    /// Computes [`Entity::spec_key`].
    pub fn key(self) -> (k: u64)
        ensures
            k == self.spec_key(),
    {
        let upper: u64 = (self.generation as i64 + 0x8000_0000i64) as u64;
        upper * 0x1_0000_0000u64 + self.id as u64
    }

    /// Two entities with the same key are the same entity.
    pub proof fn lemma_key_injective(a: Entity, b: Entity)
        requires
            a.spec_key() == b.spec_key(),
        ensures
            a == b,
    {
    }
}

} // verus!
