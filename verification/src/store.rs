//! Components listed by the entity that owns them.

use vstd::prelude::*;
use crate::entity::Entity;

verus! {

/// One component together with its owner.
#[derive(Copy, Clone, Debug)]
pub struct Entry<T> {
    pub entity: Entity,
    pub component: T,
}

/// Whether `entity` owns one of the listed components.
pub open spec fn holds<T>(entries: Seq<Entry<T>>, entity: Entity) -> bool {
    exists|i: int| 0 <= i < entries.len() && (#[trigger] entries[i]).entity == entity
}

/// The place of the first component that `entity` owns, or `None` if it
/// owns none.
pub fn find<T>(entries: &Vec<Entry<T>>, entity: Entity) -> (place: Option<usize>)
    ensures
        place is Some <==> holds(entries@, entity),
        place matches Some(i) ==> {
            &&& i < entries.len()
            &&& entries[i as int].entity == entity
            &&& forall|j: int| 0 <= j < i ==> (#[trigger] entries[j]).entity != entity
        },
{
    let mut i: usize = 0;
    while i < entries.len()
        invariant
            i <= entries.len(),
            forall|j: int| 0 <= j < i ==> (#[trigger] entries@[j]).entity != entity,
        decreases entries.len() - i,
    {
        if entries[i].entity == entity {
            return Some(i);
        }
        i = i + 1;
    }
    None
}

} // verus!
