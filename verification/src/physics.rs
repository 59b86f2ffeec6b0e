//! The bridge between the component world and the rigid-body engine: who
//! owns which engine object, what has to be pushed into the engine before
//! a step, and what comes back after it.

use vstd::prelude::*;
use specs::BitSet;
use crate::entity::Entity;
use crate::handles::{BodyHandle, ColliderHandle, Handle, HandleTable, Recorded};
use crate::idset::{bitset_add, bitset_clear, bitset_contains, bitset_new, members, index_limit};
use crate::transform::TransformComponent;

verus! {

/// The pixels of gameplay that make one unit of the engine's world.
pub const PIXELS_PER_WORLD_UNIT: u32 = 32;

/// How the engine treats a body.
#[derive(Copy, Clone, PartialEq, Eq, Structural, Debug)]
pub enum BodyStatus {
    /// The body takes no part in the simulation.
    Disabled,
    /// The body does not move.
    Static,
    /// The body is moved by forces and contacts.
    Dynamic,
    /// The body is moved by its velocity alone.
    Kinematic,
}

/// The physics identity of an entity. `V` is the type of a velocity and
/// `M` that of a mass.
#[derive(Copy, Clone, Debug)]
pub struct RigidbodyComponent<V, M> {
    /// The velocity that gameplay wants the body to have.
    pub velocity: V,
    /// The velocity of the tick before.
    pub last_velocity: V,
    /// The body in the engine, once the bridge has made it.
    pub handle: Option<BodyHandle>,
    pub mass: M,
    pub status: BodyStatus,
}

impl<V: Copy, M: Copy> RigidbodyComponent<V, M> {
    /// A body that the engine does not know yet.
    pub fn new(mass: M, velocity: V, status: BodyStatus) -> (rigidbody: Self)
        ensures
            rigidbody.velocity == velocity,
            rigidbody.last_velocity == velocity,
            rigidbody.handle is None,
            rigidbody.mass == mass,
            rigidbody.status == status,
    {
        RigidbodyComponent { velocity, last_velocity: velocity, handle: None, mass, status }
    }
}

/// The collision shape of an entity. `H` is the type of a shape, `V` that
/// of the offset from the body's origin and `M` that of a density.
#[derive(Clone, Debug)]
pub struct ColliderComponent<H, V, M> {
    pub shape: H,
    pub offset: V,
    /// The groups the shape is a member of, one bit each.
    pub membership: u32,
    /// The groups the shape never makes contact with, one bit each.
    pub blacklist: u32,
    pub density: M,
}

impl<H, V, M> ColliderComponent<H, V, M> {
    /// A collider of the given shape.
    pub fn new(shape: H, offset: V, membership: u32, blacklist: u32, density: M) -> (collider:
        Self)
        ensures
            collider.shape == shape,
            collider.offset == offset,
            collider.membership == membership,
            collider.blacklist == blacklist,
            collider.density == density,
    {
        ColliderComponent { shape, offset, membership, blacklist, density }
    }
}

/// The body that a new collider is attached to.
#[derive(Copy, Clone, PartialEq, Eq, Structural, Debug)]
pub enum ColliderParent {
    /// The entity's own body; the collider sits at the body's origin.
    Own(BodyHandle),
    /// The shared static anchor; the collider sits at the entity's
    /// transform position.
    Ground(BodyHandle),
}

/// The state of a body after an engine step, in gameplay units.
#[derive(Copy, Clone, Debug)]
pub struct BodyState<P, V> {
    pub position: P,
    pub velocity: V,
}

/// What the engine needs to make the body of an entity.
#[derive(Copy, Clone, Debug)]
pub struct NewBody<P, V, M> {
    /// A body that the entity still owned; the engine has to remove it
    /// before it makes the new one.
    pub stale: Option<BodyHandle>,
    /// Where the body starts, in gameplay units.
    pub position: P,
    pub velocity: V,
    pub mass: M,
    pub status: BodyStatus,
}

/// What the engine needs to take over the velocity of a body.
#[derive(Copy, Clone, Debug)]
pub struct VelocityPush<V> {
    pub handle: BodyHandle,
    pub velocity: V,
    pub status: BodyStatus,
}

/// What the engine needs to move a body or a collider.
#[derive(Copy, Clone, Debug)]
pub struct PositionPush<P> {
    pub handle: Handle,
    /// The new position, in gameplay units.
    pub position: P,
}

/// What the engine needs to attach the collider of an entity.
#[derive(Copy, Clone, Debug)]
pub struct NewCollider<P> {
    /// A collider that the entity still owned; the engine has to remove
    /// it before it makes the new one.
    pub stale: Option<ColliderHandle>,
    pub parent: ColliderParent,
    /// Where the collider sits relative to its parent, in gameplay units:
    /// at the entity's position on the anchor, and at the origin (`None`)
    /// on the entity's own body.
    pub offset: Option<P>,
}

/// The bridge's books: which body and which collider each entity owns,
/// and the static anchor that colliders without a body hang on.
#[derive(Debug)]
pub struct PhysicsState {
    pub ent_body_handles: HandleTable,
    pub ent_collider_handles: HandleTable,
    /// The static anchor body.
    pub ground_body_handle: BodyHandle,
}

impl PhysicsState {
    /// Both tables are well formed.
    pub open spec fn wf(&self) -> bool {
        self.ent_body_handles.wf() && self.ent_collider_handles.wf()
    }

    /// Books with no entity in them, over the anchor body `ground`.
    pub fn new(ground: BodyHandle) -> (state: Self)
        ensures
            state.wf(),
            state.ground_body_handle == ground,
            state.ent_body_handles@ == Map::<Entity, BodyHandle>::empty(),
            state.ent_collider_handles@ == Map::<Entity, ColliderHandle>::empty(),
    {
        PhysicsState {
            ent_body_handles: HandleTable::new(),
            ent_collider_handles: HandleTable::new(),
            ground_body_handle: ground,
        }
    }

    /// Prepares the body of an entity whose rigid body was just inserted:
    /// the body starts at the entity's position with the velocity, mass
    /// and status of the component. A body that the entity owned before is
    /// struck from the books and handed back as stale.
    pub fn begin_body<P: Copy, O: Copy, S: Copy, V: Copy, M: Copy>(
        &mut self,
        ent: Entity,
        transform: &TransformComponent<P, O, S>,
        rigidbody: &RigidbodyComponent<V, M>,
    ) -> (body: NewBody<P, V, M>)
        requires
            old(self).wf(),
        ensures
            final(self).wf(),
            final(self).ground_body_handle == old(self).ground_body_handle,
            final(self).ent_collider_handles == old(self).ent_collider_handles,
            final(self).ent_body_handles@ == old(self).ent_body_handles@.remove(ent),
            body.stale == old(self).ent_body_handles@.get(ent),
            body.position == transform.position,
            body.velocity == rigidbody.velocity,
            body.mass == rigidbody.mass,
            body.status == rigidbody.status,
    {
        let stale = self.ent_body_handles.release(ent);
        NewBody {
            stale,
            position: transform.position,
            velocity: rigidbody.velocity,
            mass: rigidbody.mass,
            status: rigidbody.status,
        }
    }

    /// Enters the body that the engine made for `ent` and notes it in the
    /// component. A body that `ent` still owned is handed back as
    /// replaced: the engine has to remove it.
    pub fn insert_body<V, M>(
        &mut self,
        ent: Entity,
        rigidbody: &mut RigidbodyComponent<V, M>,
        handle: BodyHandle,
    ) -> (found: Recorded)
        requires
            old(self).wf(),
        ensures
            final(self).wf(),
            final(self).ground_body_handle == old(self).ground_body_handle,
            final(self).ent_collider_handles == old(self).ent_collider_handles,
            found.replaced == old(self).ent_body_handles@.get(ent),
            found.displaced == (match old(self).ent_body_handles.owner_of(handle.index) {
                Some(other) => if other != ent {
                    Some(other)
                } else {
                    None
                },
                None => None,
            }),
            final(self).ent_body_handles@ == (match found.displaced {
                Some(other) => old(self).ent_body_handles@.remove(ent).remove(other).insert(
                    ent,
                    handle,
                ),
                None => old(self).ent_body_handles@.remove(ent).insert(ent, handle),
            }),
            final(rigidbody).handle == Some(handle),
            final(rigidbody).velocity == old(rigidbody).velocity,
            final(rigidbody).last_velocity == old(rigidbody).last_velocity,
            final(rigidbody).mass == old(rigidbody).mass,
            final(rigidbody).status == old(rigidbody).status,
    {
        let found = self.ent_body_handles.record(ent, handle);
        rigidbody.handle = Some(handle);
        found
    }

    /// What to push into the engine for an entity whose rigid body was
    /// modified by gameplay: the velocity and the status of the component,
    /// onto the entity's body. `None` when the books know no body of the
    /// entity.
    pub fn push_velocity<V: Copy, M: Copy>(
        &self,
        ent: Entity,
        rigidbody: &RigidbodyComponent<V, M>,
    ) -> (push: Option<VelocityPush<V>>)
        ensures
            push is Some <==> self.ent_body_handles@.contains_key(ent),
            push matches Some(p) ==> {
                &&& p.handle == self.ent_body_handles@[ent]
                &&& p.velocity == rigidbody.velocity
                &&& p.status == rigidbody.status
            },
    {
        match self.ent_body_handles.get(ent) {
            Some(handle) => Some(
                VelocityPush { handle, velocity: rigidbody.velocity, status: rigidbody.status },
            ),
            None => None,
        }
    }

    /// What to push into the engine for an entity with a rigid body whose
    /// transform was modified by gameplay: the position of the transform,
    /// onto the entity's body. `None` when the books know no body of the
    /// entity.
    pub fn push_position<P: Copy, O: Copy, S: Copy>(
        &self,
        ent: Entity,
        transform: &TransformComponent<P, O, S>,
    ) -> (push: Option<PositionPush<P>>)
        ensures
            push is Some <==> self.ent_body_handles@.contains_key(ent),
            push matches Some(p) ==> p.handle == self.ent_body_handles@[ent] && p.position
                == transform.position,
    {
        match self.ent_body_handles.get(ent) {
            Some(handle) => Some(PositionPush { handle, position: transform.position }),
            None => None,
        }
    }

    /// Strikes the body of an entity whose rigid body was removed from the
    /// books and hands it back for the engine to remove. `None` when the
    /// books know no body of the entity.
    pub fn remove_body(&mut self, ent: Entity) -> (handle: Option<BodyHandle>)
        requires
            old(self).wf(),
        ensures
            final(self).wf(),
            final(self).ground_body_handle == old(self).ground_body_handle,
            final(self).ent_collider_handles == old(self).ent_collider_handles,
            final(self).ent_body_handles@ == old(self).ent_body_handles@.remove(ent),
            handle == old(self).ent_body_handles@.get(ent),
    {
        self.ent_body_handles.release(ent)
    }

    /// Prepares the collider of an entity whose collider was just
    /// inserted: it hangs on the entity's own body, at the body's origin,
    /// or, without a body, on the anchor at the entity's position. A
    /// collider that the entity owned before is struck from the books and
    /// handed back as stale.
    pub fn begin_collider<P: Copy, O: Copy, S: Copy>(
        &mut self,
        ent: Entity,
        transform: &TransformComponent<P, O, S>,
    ) -> (collider: NewCollider<P>)
        requires
            old(self).wf(),
        ensures
            final(self).wf(),
            final(self).ground_body_handle == old(self).ground_body_handle,
            final(self).ent_body_handles == old(self).ent_body_handles,
            final(self).ent_collider_handles@ == old(self).ent_collider_handles@.remove(ent),
            collider.stale == old(self).ent_collider_handles@.get(ent),
            old(self).ent_body_handles@.contains_key(ent) ==> collider.parent
                == ColliderParent::Own(old(self).ent_body_handles@[ent]) && collider.offset
                is None,
            !old(self).ent_body_handles@.contains_key(ent) ==> collider.parent
                == ColliderParent::Ground(old(self).ground_body_handle) && collider.offset
                == Some(transform.position),
    {
        let stale = self.ent_collider_handles.release(ent);
        let parent = self.collider_parent(ent);
        let offset = match parent {
            ColliderParent::Own(_) => None,
            ColliderParent::Ground(_) => Some(transform.position),
        };
        NewCollider { stale, parent, offset }
    }

    /// Enters the collider that the engine made for `ent`. A collider
    /// that `ent` still owned is handed back as replaced: the engine has
    /// to remove it.
    pub fn insert_collider(&mut self, ent: Entity, handle: ColliderHandle) -> (found: Recorded)
        requires
            old(self).wf(),
        ensures
            final(self).wf(),
            final(self).ground_body_handle == old(self).ground_body_handle,
            final(self).ent_body_handles == old(self).ent_body_handles,
            found.replaced == old(self).ent_collider_handles@.get(ent),
            found.displaced == (match old(self).ent_collider_handles.owner_of(handle.index) {
                Some(other) => if other != ent {
                    Some(other)
                } else {
                    None
                },
                None => None,
            }),
            final(self).ent_collider_handles@ == (match found.displaced {
                Some(other) => old(self).ent_collider_handles@.remove(ent).remove(other).insert(
                    ent,
                    handle,
                ),
                None => old(self).ent_collider_handles@.remove(ent).insert(ent, handle),
            }),
    {
        self.ent_collider_handles.record(ent, handle)
    }

    /// Strikes the collider of an entity whose collider was removed from
    /// the books and hands it back for the engine to remove. `None` when
    /// the books know no collider of the entity.
    pub fn remove_collider(&mut self, ent: Entity) -> (handle: Option<ColliderHandle>)
        requires
            old(self).wf(),
        ensures
            final(self).wf(),
            final(self).ground_body_handle == old(self).ground_body_handle,
            final(self).ent_body_handles == old(self).ent_body_handles,
            final(self).ent_collider_handles@ == old(self).ent_collider_handles@.remove(ent),
            handle == old(self).ent_collider_handles@.get(ent),
    {
        self.ent_collider_handles.release(ent)
    }

    /// What to push into the engine for an entity with a collider whose
    /// transform was modified by gameplay: nothing if a rigid body carries
    /// the collider, else the position of the transform, onto the
    /// entity's collider. `None` also when the books know no collider of
    /// the entity.
    pub fn push_collider_position<P: Copy, O: Copy, S: Copy>(
        &self,
        ent: Entity,
        has_rigidbody: bool,
        transform: &TransformComponent<P, O, S>,
    ) -> (push: Option<PositionPush<P>>)
        ensures
            push is Some <==> !has_rigidbody && self.ent_collider_handles@.contains_key(ent),
            push matches Some(p) ==> p.handle == self.ent_collider_handles@[ent] && p.position
                == transform.position,
    {
        match self.loose_collider(ent, has_rigidbody) {
            Some(handle) => Some(PositionPush { handle, position: transform.position }),
            None => None,
        }
    }

    /// The body that a new collider of `ent` hangs on: the entity's own
    /// body if it has one, the anchor otherwise.
    pub fn collider_parent(&self, ent: Entity) -> (parent: ColliderParent)
        ensures
            parent == (if self.ent_body_handles@.contains_key(ent) {
                ColliderParent::Own(self.ent_body_handles@[ent])
            } else {
                ColliderParent::Ground(self.ground_body_handle)
            }),
    {
        match self.ent_body_handles.get(ent) {
            Some(handle) => ColliderParent::Own(handle),
            None => ColliderParent::Ground(self.ground_body_handle),
        }
    }

    /// The collider whose position has to follow the transform of `ent`
    /// directly: the entity's collider, unless a body carries it.
    pub fn loose_collider(&self, ent: Entity, has_rigidbody: bool) -> (target: Option<
        ColliderHandle,
    >)
        ensures
            target == (if has_rigidbody {
                None
            } else {
                self.ent_collider_handles@.get(ent)
            }),
    {
        if has_rigidbody {
            None
        } else {
            self.ent_collider_handles.get(ent)
        }
    }
}

/// Takes the engine's state of a body into the components: what was
/// current becomes last, and the engine's position and velocity become
/// current. Without a handle in the component, or without a body behind
/// it, nothing changes and the answer is `false`.
pub fn receive_body_state<P: Copy, O: Copy, S: Copy, V: Copy, M: Copy>(
    transform: &mut TransformComponent<P, O, S>,
    rigidbody: &mut RigidbodyComponent<V, M>,
    state: Option<BodyState<P, V>>,
) -> (received: bool)
    ensures
        received == (old(rigidbody).handle is Some && state is Some),
        !received ==> *final(transform) == *old(transform) && *final(rigidbody) == *old(rigidbody),
        received ==> {
            &&& final(transform).last_position == old(transform).position
            &&& final(transform).position == state->0.position
            &&& final(transform).origin == old(transform).origin
            &&& final(transform).scale == old(transform).scale
            &&& final(rigidbody).last_velocity == old(rigidbody).velocity
            &&& final(rigidbody).velocity == state->0.velocity
            &&& final(rigidbody).handle == old(rigidbody).handle
            &&& final(rigidbody).mass == old(rigidbody).mass
            &&& final(rigidbody).status == old(rigidbody).status
        },
{
    if rigidbody.handle.is_none() {
        return false;
    }
    match state {
        Some(body) => {
            transform.advance(body.position);
            rigidbody.last_velocity = rigidbody.velocity;
            rigidbody.velocity = body.velocity;
            true
        },
        None => false,
    }
}

/// A change that the component store reports for one entity index.
#[derive(Copy, Clone, PartialEq, Eq, Structural, Debug)]
pub enum ComponentEvent {
    Inserted(u32),
    Modified(u32),
    Removed(u32),
}

impl ComponentEvent {
    /// The entity index that the change is about.
    pub open spec fn spec_id(self) -> u32 {
        match self {
            ComponentEvent::Inserted(id) => id,
            ComponentEvent::Modified(id) => id,
            ComponentEvent::Removed(id) => id,
        }
    }

    /// Computes [`ComponentEvent::spec_id`].
    pub fn id(self) -> (id: u32)
        ensures
            id == self.spec_id(),
    {
        match self {
            ComponentEvent::Inserted(id) => id,
            ComponentEvent::Modified(id) => id,
            ComponentEvent::Removed(id) => id,
        }
    }
}

/// Every index in `events` is one that a bit set can hold.
pub open spec fn indices_in_range(events: Seq<ComponentEvent>) -> bool {
    forall|i: int| 0 <= i < events.len() ==> (#[trigger] events[i]).spec_id() < index_limit()
}

/// The indices that `events` report as inserted.
pub open spec fn inserted_ids(events: Seq<ComponentEvent>) -> Set<u32> {
    Set::new(|id: u32| events.contains(ComponentEvent::Inserted(id)))
}

/// The indices that `events` report as modified.
pub open spec fn modified_ids(events: Seq<ComponentEvent>) -> Set<u32> {
    Set::new(|id: u32| events.contains(ComponentEvent::Modified(id)))
}

/// The indices that `events` report as removed.
pub open spec fn removed_ids(events: Seq<ComponentEvent>) -> Set<u32> {
    Set::new(|id: u32| events.contains(ComponentEvent::Removed(id)))
}

/// The changes of one tick to one kind of component, and to the
/// transforms beside it, as sets of entity indices.
pub struct ChangeSets {
    pub inserted: BitSet,
    pub modified: BitSet,
    pub removed: BitSet,
    /// Transforms that were inserted or modified.
    pub modified_transforms: BitSet,
}

impl ChangeSets {
    /// Change sets with no index in them.
    pub fn new() -> (sets: Self)
        ensures
            members(sets.inserted) == Set::<u32>::empty(),
            members(sets.modified) == Set::<u32>::empty(),
            members(sets.removed) == Set::<u32>::empty(),
            members(sets.modified_transforms) == Set::<u32>::empty(),
    {
        ChangeSets {
            inserted: bitset_new(),
            modified: bitset_new(),
            removed: bitset_new(),
            modified_transforms: bitset_new(),
        }
    }

    /// Forgets the tick before and sorts the changes of this tick into
    /// the sets: each component change by its kind, and each transform
    /// that was inserted or modified.
    pub fn track(
        &mut self,
        transform_events: &Vec<ComponentEvent>,
        component_events: &Vec<ComponentEvent>,
    )
        requires
            indices_in_range(transform_events@),
            indices_in_range(component_events@),
        ensures
            members(final(self).inserted) == inserted_ids(component_events@),
            members(final(self).modified) == modified_ids(component_events@),
            members(final(self).removed) == removed_ids(component_events@),
            members(final(self).modified_transforms) == inserted_ids(transform_events@).union(
                modified_ids(transform_events@),
            ),
    {
        bitset_clear(&mut self.inserted);
        bitset_clear(&mut self.modified);
        bitset_clear(&mut self.removed);
        bitset_clear(&mut self.modified_transforms);

        let mut i: usize = 0;
        while i < transform_events.len()
            invariant
                i <= transform_events.len(),
                indices_in_range(transform_events@),
                members(self.modified_transforms) == inserted_ids(
                    transform_events@.take(i as int),
                ).union(modified_ids(transform_events@.take(i as int))),
                members(self.inserted) == Set::<u32>::empty(),
                members(self.modified) == Set::<u32>::empty(),
                members(self.removed) == Set::<u32>::empty(),
            decreases transform_events.len() - i,
        {
            let ghost seen = transform_events@.take(i as int);
            let ghost next = transform_events@.take(i + 1);
            proof {
                assert(next == seen.push(transform_events@[i as int]));
                lemma_ids_push(seen, transform_events@[i as int]);
            }
            match transform_events[i] {
                ComponentEvent::Inserted(id) => {
                    bitset_add(&mut self.modified_transforms, id);
                },
                ComponentEvent::Modified(id) => {
                    bitset_add(&mut self.modified_transforms, id);
                },
                ComponentEvent::Removed(_) => {},
            }
            assert(members(self.modified_transforms) =~= inserted_ids(next).union(
                modified_ids(next),
            ));
            i = i + 1;
        }
        proof {
            assert(transform_events@.take(transform_events@.len() as int) == transform_events@);
        }

        let mut j: usize = 0;
        while j < component_events.len()
            invariant
                j <= component_events.len(),
                indices_in_range(component_events@),
                members(self.inserted) == inserted_ids(component_events@.take(j as int)),
                members(self.modified) == modified_ids(component_events@.take(j as int)),
                members(self.removed) == removed_ids(component_events@.take(j as int)),
                members(self.modified_transforms) == inserted_ids(transform_events@).union(
                    modified_ids(transform_events@),
                ),
            decreases component_events.len() - j,
        {
            let ghost seen = component_events@.take(j as int);
            proof {
                assert(component_events@.take(j + 1) == seen.push(component_events@[j as int]));
                lemma_ids_push(seen, component_events@[j as int]);
            }
            match component_events[j] {
                ComponentEvent::Inserted(id) => {
                    bitset_add(&mut self.inserted, id);
                },
                ComponentEvent::Modified(id) => {
                    bitset_add(&mut self.modified, id);
                },
                ComponentEvent::Removed(id) => {
                    bitset_add(&mut self.removed, id);
                },
            }
            j = j + 1;
        }
        proof {
            assert(component_events@.take(component_events@.len() as int) == component_events@);
        }
    }

    /// Whether the component of entity index `id` was inserted this tick.
    pub fn is_inserted(&self, id: u32) -> (present: bool)
        ensures
            present == members(self.inserted).contains(id),
    {
        bitset_contains(&self.inserted, id)
    }
}

/// One more event adds its index to the set of its kind and to no other.
pub proof fn lemma_ids_push(events: Seq<ComponentEvent>, event: ComponentEvent)
    ensures
        inserted_ids(events.push(event)) == (match event {
            ComponentEvent::Inserted(id) => inserted_ids(events).insert(id),
            _ => inserted_ids(events),
        }),
        modified_ids(events.push(event)) == (match event {
            ComponentEvent::Modified(id) => modified_ids(events).insert(id),
            _ => modified_ids(events),
        }),
        removed_ids(events.push(event)) == (match event {
            ComponentEvent::Removed(id) => removed_ids(events).insert(id),
            _ => removed_ids(events),
        }),
{
    let longer = events.push(event);
    assert forall|e: ComponentEvent| longer.contains(e) <==> (events.contains(e) || e == event) by {
        if events.contains(e) {
            let i = choose|i: int| 0 <= i < events.len() && events[i] == e;
            assert(longer[i] == e);
        }
        if e == event {
            assert(longer[events.len() as int] == e);
        }
    }
    assert(inserted_ids(longer) =~= (match event {
        ComponentEvent::Inserted(id) => inserted_ids(events).insert(id),
        _ => inserted_ids(events),
    }));
    assert(modified_ids(longer) =~= (match event {
        ComponentEvent::Modified(id) => modified_ids(events).insert(id),
        _ => modified_ids(events),
    }));
    assert(removed_ids(longer) =~= (match event {
        ComponentEvent::Removed(id) => removed_ids(events).insert(id),
        _ => removed_ids(events),
    }));
}

} // verus!
