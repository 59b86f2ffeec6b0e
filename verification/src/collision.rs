//! From the engine's contact notifications to the collision events that
//! gameplay consumes.

use vstd::prelude::*;
use crate::entity::Entity;
use crate::handles::ColliderHandle;

verus! {

/// Whether a contact began or ended.
#[derive(Copy, Clone, PartialEq, Eq, Structural, Debug)]
pub enum CollisionType {
    Started,
    Stopped,
}

/// A contact between two colliders, as gameplay sees it. `N` is the type
/// of a contact normal and `P` that of a contact point.
#[derive(Copy, Clone, Debug)]
pub struct CollisionEvent<N, P> {
    /// The entity behind the first collider, if it has one.
    pub entity_a: Option<Entity>,
    pub collider_handle_a: ColliderHandle,
    /// The entity behind the second collider, if it has one.
    pub entity_b: Option<Entity>,
    pub collider_handle_b: ColliderHandle,
    /// The separation normal at the deepest contact; absent when the
    /// manifold was empty.
    pub normal: Option<N>,
    /// The world point of the deepest contact; absent with the normal.
    pub collision_point: Option<P>,
    pub ty: CollisionType,
}

/// A notification of the engine's narrow phase.
#[derive(Copy, Clone, PartialEq, Eq, Structural, Debug)]
pub enum ContactEvent {
    Started(ColliderHandle, ColliderHandle),
    Stopped(ColliderHandle, ColliderHandle),
}

/// The deepest contact of a manifold.
#[derive(Copy, Clone, Debug)]
pub struct DeepestContact<N, P> {
    pub normal: N,
    pub point: P,
}

/// What the engine knows of a pair of colliders in contact.
#[derive(Copy, Clone, Debug)]
pub struct ContactPair<N, P> {
    pub handle_a: ColliderHandle,
    /// The entity that the first collider refers back to.
    pub entity_a: Option<Entity>,
    pub handle_b: ColliderHandle,
    /// The entity that the second collider refers back to.
    pub entity_b: Option<Entity>,
    /// The deepest contact of the pair's manifold, if it has any contact.
    pub deepest: Option<DeepestContact<N, P>>,
}

/// A notification together with the engine's answer when asked for the
/// pair it names (`None` when the engine had no such pair).
#[derive(Copy, Clone, Debug)]
pub struct ContactNotice<N, P> {
    pub event: ContactEvent,
    pub pair: Option<ContactPair<N, P>>,
}

/// Both events name two entities, and the same two, in either order.
pub open spec fn same_entity_pair<N, P>(x: CollisionEvent<N, P>, y: CollisionEvent<N, P>) -> bool {
    &&& x.entity_a is Some
    &&& x.entity_b is Some
    &&& y.entity_a is Some
    &&& y.entity_b is Some
    &&& (x.entity_a == y.entity_a && x.entity_b == y.entity_b) || (x.entity_a == y.entity_b
        && x.entity_b == y.entity_a)
}

/// Some event of `log` names the same pair of entities as `event`.
pub open spec fn already_reported<N, P>(
    log: Seq<CollisionEvent<N, P>>,
    event: CollisionEvent<N, P>,
) -> bool {
    exists|i: int| 0 <= i < log.len() && same_entity_pair(#[trigger] log[i], event)
}

/// The event that one notification stands for: a started contact whose
/// pair the engine knows becomes an event, with the normal and the point
/// of the deepest contact where the manifold has one. A stopped contact,
/// and a started one without a pair, stand for nothing.
pub open spec fn event_of<N, P>(notice: ContactNotice<N, P>) -> Option<CollisionEvent<N, P>> {
    match (notice.event, notice.pair) {
        (ContactEvent::Started(_, _), Some(pair)) => Some(
            CollisionEvent {
                entity_a: pair.entity_a,
                collider_handle_a: pair.handle_a,
                entity_b: pair.entity_b,
                collider_handle_b: pair.handle_b,
                normal: match pair.deepest {
                    Some(deepest) => Some(deepest.normal),
                    None => None,
                },
                collision_point: match pair.deepest {
                    Some(deepest) => Some(deepest.point),
                    None => None,
                },
                ty: CollisionType::Started,
            },
        ),
        _ => None,
    }
}

/// The events of one tick: the notifications in the engine's order, each
/// turned into its event, except that a pair of entities is reported once
/// only, by its first event.
pub open spec fn tick_events<N, P>(notices: Seq<ContactNotice<N, P>>) -> Seq<CollisionEvent<N, P>>
    decreases notices.len(),
{
    if notices.len() == 0 {
        Seq::empty()
    } else {
        let earlier = tick_events(notices.drop_last());
        match event_of(notices.last()) {
            Some(event) => if already_reported(earlier, event) {
                earlier
            } else {
                earlier.push(event)
            },
            None => earlier,
        }
    }
}

/// Computes [`event_of`].
pub fn translate_notice<N: Copy, P: Copy>(notice: &ContactNotice<N, P>) -> (event: Option<
    CollisionEvent<N, P>,
>)
    ensures
        event == event_of(*notice),
{
    match notice.event {
        ContactEvent::Started(_, _) => match notice.pair {
            Some(pair) => {
                let (normal, collision_point) = match pair.deepest {
                    Some(deepest) => (Some(deepest.normal), Some(deepest.point)),
                    None => (None, None),
                };
                Some(
                    CollisionEvent {
                        entity_a: pair.entity_a,
                        collider_handle_a: pair.handle_a,
                        entity_b: pair.entity_b,
                        collider_handle_b: pair.handle_b,
                        normal,
                        collision_point,
                        ty: CollisionType::Started,
                    },
                )
            },
            None => None,
        },
        ContactEvent::Stopped(_, _) => None,
    }
}

/// Whether two events name the same pair of entities.
pub fn is_same_entity_pair<N: Copy, P: Copy>(
    x: &CollisionEvent<N, P>,
    y: &CollisionEvent<N, P>,
) -> (same: bool)
    ensures
        same == same_entity_pair(*x, *y),
{
    match (x.entity_a, x.entity_b, y.entity_a, y.entity_b) {
        (Some(xa), Some(xb), Some(ya), Some(yb)) => (xa == ya && xb == yb) || (xa == yb && xb
            == ya),
        _ => false,
    }
}

/// Whether `log` already holds an event for the pair of `event`.
pub fn is_already_reported<N: Copy, P: Copy>(
    log: &Vec<CollisionEvent<N, P>>,
    event: &CollisionEvent<N, P>,
) -> (found: bool)
    ensures
        found == already_reported(log@, *event),
{
    let mut i: usize = 0;
    while i < log.len()
        invariant
            i <= log.len(),
            forall|j: int| 0 <= j < i ==> !same_entity_pair(#[trigger] log@[j], *event),
        decreases log.len() - i,
    {
        if is_same_entity_pair(&log[i], event) {
            return true;
        }
        i = i + 1;
    }
    false
}

/// Turns the notifications of one engine step into the tick's collision
/// events.
pub fn translate_contacts<N: Copy, P: Copy>(notices: &Vec<ContactNotice<N, P>>) -> (events: Vec<
    CollisionEvent<N, P>,
>)
    ensures
        events@ == tick_events(notices@),
{
    let mut events: Vec<CollisionEvent<N, P>> = Vec::new();
    let mut i: usize = 0;
    while i < notices.len()
        invariant
            i <= notices.len(),
            events@ == tick_events(notices@.take(i as int)),
        decreases notices.len() - i,
    {
        proof {
            assert(notices@.take(i + 1).drop_last() == notices@.take(i as int));
        }
        if let Some(event) = translate_notice(&notices[i]) {
            if !is_already_reported(&events, &event) {
                events.push(event);
            }
        }
        i = i + 1;
    }
    proof {
        assert(notices@.take(notices@.len() as int) == notices@);
    }
    events
}

/// No two events of a tick name the same pair of entities.
pub proof fn lemma_one_event_per_pair<N, P>(notices: Seq<ContactNotice<N, P>>, i: int, j: int)
    requires
        0 <= i < j < tick_events(notices).len(),
    ensures
        !same_entity_pair(tick_events(notices)[i], tick_events(notices)[j]),
    decreases notices.len(),
{
    if notices.len() > 0 {
        let earlier = tick_events(notices.drop_last());
        if j < earlier.len() {
            lemma_one_event_per_pair(notices.drop_last(), i, j);
        } else {
            let event = event_of(notices.last())->0;
            assert(!already_reported(earlier, event));
            assert(earlier[i] == tick_events(notices)[i]);
        }
    }
}

/// Every event of a tick stands for one of its notifications, and the
/// events keep the order of the notifications they stand for.
pub proof fn lemma_events_in_engine_order<N, P>(notices: Seq<ContactNotice<N, P>>) -> (source: Seq<
    int,
>)
    ensures
        source.len() == tick_events(notices).len(),
        forall|k: int|
            0 <= k < source.len() ==> 0 <= #[trigger] source[k] < notices.len() && event_of(
                notices[source[k]],
            ) == Some(tick_events(notices)[k]),
        forall|k: int, l: int| 0 <= k < l < source.len() ==> source[k] < source[l],
    decreases notices.len(),
{
    if notices.len() == 0 {
        Seq::empty()
    } else {
        let earlier = lemma_events_in_engine_order(notices.drop_last());
        if tick_events(notices).len() == earlier.len() {
            earlier
        } else {
            earlier.push(notices.len() - 1)
        }
    }
}

/// A pair's first started contact is reported: an event for a pair that
/// no earlier notification named is in the tick's events.
pub proof fn lemma_started_contact_reported<N, P>(notices: Seq<ContactNotice<N, P>>, k: int)
    requires
        0 <= k < notices.len(),
        event_of(notices[k]) is Some,
    ensures
        exists|i: int|
            0 <= i < tick_events(notices).len() && (#[trigger] tick_events(notices)[i] == event_of(
                notices[k],
            )->0 || same_entity_pair(tick_events(notices)[i], event_of(notices[k])->0)),
    decreases notices.len(),
{
    let all = tick_events(notices);
    let earlier = tick_events(notices.drop_last());
    if k == notices.len() - 1 {
        let event = event_of(notices[k])->0;
        if already_reported(earlier, event) {
            let i = choose|i: int|
                0 <= i < earlier.len() && same_entity_pair(#[trigger] earlier[i], event);
            assert(all[i] == earlier[i]);
        } else {
            assert(all[all.len() - 1] == event);
        }
    } else {
        lemma_started_contact_reported(notices.drop_last(), k);
        let i = choose|i: int|
            0 <= i < earlier.len() && (#[trigger] earlier[i] == event_of(notices[k])->0
                || same_entity_pair(earlier[i], event_of(notices[k])->0));
        assert(all[i] == earlier[i]);
    }
}

} // verus!
