//! Handles of engine objects and the table that ties each entity to the
//! one handle it owns.

use vstd::prelude::*;
use std::collections::HashMap;
use crate::entity::Entity;

verus! {

broadcast use vstd::std_specs::hash::group_hash_axioms;

/// A handle of the rigid-body engine: the slot of its arena and the
/// generation of that slot.
#[derive(Copy, Clone, PartialEq, Eq, Structural, Debug, Hash)]
pub struct Handle {
    pub index: usize,
    pub generation: u64,
}

/// The handle of a body.
pub type BodyHandle = Handle;

/// The handle of a collider.
pub type ColliderHandle = Handle;

/// What [`HandleTable::record`] found in the way of the new handle.
#[derive(Copy, Clone, PartialEq, Eq, Structural, Debug)]
pub struct Recorded {
    /// The handle the entity owned before; the engine object behind it is
    /// to be removed.
    pub replaced: Option<Handle>,
    /// Another entity that claimed the same arena slot and lost its claim.
    pub displaced: Option<Entity>,
}

/// Entity to handle, one handle per entity and one entity per arena slot.
#[derive(Debug)]
pub struct HandleTable {
    by_entity: HashMap<u64, Handle>,
    by_slot: HashMap<usize, Entity>,
}

impl HandleTable {
    /// The handle of each entity that owns one.
    pub closed spec fn view(&self) -> Map<Entity, Handle> {
        Map::new(
            |e: Entity| self.by_entity@.contains_key(e.spec_key()),
            |e: Entity| self.by_entity@[e.spec_key()],
        )
    }

    /// The entity that owns the handle in arena slot `index`, if any.
    pub closed spec fn owner_of(&self, index: usize) -> Option<Entity> {
        if self.by_slot@.contains_key(index) {
            Some(self.by_slot@[index])
        } else {
            None
        }
    }

    /// The two directions of the table agree.
    pub closed spec fn wf(&self) -> bool {
        &&& forall|k: u64| #[trigger]
            self.by_entity@.contains_key(k) ==> {
                &&& self.by_slot@.contains_key(self.by_entity@[k].index)
                &&& self.by_slot@[self.by_entity@[k].index].spec_key() == k
            }
        &&& forall|i: usize| #[trigger]
            self.by_slot@.contains_key(i) ==> {
                &&& self.by_entity@.contains_key(self.by_slot@[i].spec_key())
                &&& self.by_entity@[self.by_slot@[i].spec_key()].index == i
            }
    }

    /// No arena slot, and so no handle, belongs to two entities.
    pub open spec fn unshared(&self) -> bool {
        forall|a: Entity, b: Entity|
            self@.contains_key(a) && self@.contains_key(b) && self@[a].index == self@[b].index
                ==> a == b
    }

    /// In a well-formed table `owner_of` is the inverse of the view, and
    /// no handle is shared.
    pub proof fn lemma_owner(&self)
        requires
            self.wf(),
        ensures
            self.unshared(),
            forall|e: Entity| #[trigger]
                self@.contains_key(e) ==> self.owner_of(self@[e].index) == Some(e),
            forall|i: usize, e: Entity|
                self.owner_of(i) == Some(e) ==> self@.contains_key(e) && self@[e].index == i,
    {
        assert forall|e: Entity| #[trigger] self@.contains_key(e) implies self.owner_of(
            self@[e].index,
        ) == Some(e) by {
            assert(self.by_entity@.contains_key(e.spec_key()));
            Entity::lemma_key_injective(self.by_slot@[self@[e].index], e);
        }
        assert forall|i: usize, e: Entity| self.owner_of(i) == Some(e) implies self@.contains_key(
            e,
        ) && self@[e].index == i by {
            assert(self.by_slot@.contains_key(i));
        }
    }

    /// An empty table.
    pub fn new() -> (table: Self)
        ensures
            table.wf(),
            table@ == Map::<Entity, Handle>::empty(),
    {
        HandleTable { by_entity: HashMap::new(), by_slot: HashMap::new() }
    }

    /// The handle that `ent` owns.
    pub fn get(&self, ent: Entity) -> (handle: Option<Handle>)
        ensures
            handle == (if self@.contains_key(ent) {
                Some(self@[ent])
            } else {
                None
            }),
    {
        let key = ent.key();
        match self.by_entity.get(&key) {
            Some(handle) => Some(*handle),
            None => None,
        }
    }

    /// Takes the handle of `ent` out of the table and hands it back, so
    /// that the engine object behind it can be removed and none is leaked.
    pub fn release(&mut self, ent: Entity) -> (handle: Option<Handle>)
        requires
            old(self).wf(),
        ensures
            final(self).wf(),
            handle == (if old(self)@.contains_key(ent) {
                Some(old(self)@[ent])
            } else {
                None
            }),
            final(self)@ == old(self)@.remove(ent),
            forall|i: usize|
                #[trigger] final(self).owner_of(i) == (if old(self).owner_of(i) == Some(ent) {
                    None
                } else {
                    old(self).owner_of(i)
                }),
    {
        proof {
            old(self).lemma_owner();
        }
        let key = ent.key();
        let handle = self.by_entity.remove(&key);
        if let Some(h) = handle {
            self.by_slot.remove(&h.index);
        }
        proof {
            assert forall|e: Entity| #[trigger]
                old(self)@.remove(ent).contains_key(e) implies e.spec_key() != key by {
                if e.spec_key() == key {
                    Entity::lemma_key_injective(e, ent);
                }
            }
        }
        handle
    }

    /// Ties `ent` to `handle`. A handle that `ent` owned before is handed
    /// back as replaced; an entity that claimed the same arena slot loses
    /// its entry, so that the slot has one owner only.
    pub fn record(&mut self, ent: Entity, handle: Handle) -> (found: Recorded)
        requires
            old(self).wf(),
        ensures
            final(self).wf(),
            found.replaced == (if old(self)@.contains_key(ent) {
                Some(old(self)@[ent])
            } else {
                None
            }),
            found.displaced == (match old(self).owner_of(handle.index) {
                Some(other) => if other != ent {
                    Some(other)
                } else {
                    None
                },
                None => None,
            }),
            final(self)@ == (match found.displaced {
                Some(other) => old(self)@.remove(ent).remove(other).insert(ent, handle),
                None => old(self)@.remove(ent).insert(ent, handle),
            }),
    {
        let replaced = self.release(ent);
        let ghost mid = *self;
        let displaced = match self.by_slot.get(&handle.index) {
            Some(other) => Some(*other),
            None => None,
        };
        proof {
            old(self).lemma_owner();
            mid.lemma_owner();
        }
        if let Some(other) = displaced {
            self.release(other);
        }
        let ghost cleared = *self;
        proof {
            cleared.lemma_owner();
        }
        let key = ent.key();
        self.by_entity.insert(key, handle);
        self.by_slot.insert(handle.index, ent);
        proof {
            assert forall|e: Entity| e != ent implies e.spec_key() != key by {
                if e.spec_key() == key {
                    Entity::lemma_key_injective(e, ent);
                }
            }
            assert(!cleared@.contains_key(ent));
            assert(cleared.owner_of(handle.index) is None);
        }
        Recorded { replaced, displaced }
    }
}

} // verus!
