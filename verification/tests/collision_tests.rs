use brickbonker::collision::{
    translate_contacts, translate_notice, CollisionEvent, CollisionType, ContactEvent,
    ContactNotice, ContactPair, DeepestContact,
};
use brickbonker::entity::Entity;
use brickbonker::handles::Handle;

type Vec2 = (f64, f64);

fn ent(id: u32) -> Entity {
    Entity { id, generation: 1 }
}

fn handle(index: usize) -> Handle {
    Handle { index, generation: 0 }
}

fn pair(a: Option<Entity>, b: Option<Entity>, deepest: Option<(Vec2, Vec2)>) -> ContactPair<Vec2, Vec2> {
    ContactPair {
        handle_a: handle(1),
        entity_a: a,
        handle_b: handle(2),
        entity_b: b,
        deepest: deepest.map(|(normal, point)| DeepestContact { normal, point }),
    }
}

fn started(p: Option<ContactPair<Vec2, Vec2>>) -> ContactNotice<Vec2, Vec2> {
    ContactNotice { event: ContactEvent::Started(handle(1), handle(2)), pair: p }
}

fn stopped(p: Option<ContactPair<Vec2, Vec2>>) -> ContactNotice<Vec2, Vec2> {
    ContactNotice { event: ContactEvent::Stopped(handle(1), handle(2)), pair: p }
}

fn summary(e: &CollisionEvent<Vec2, Vec2>) -> (Option<Entity>, Option<Entity>, Option<Vec2>, Option<Vec2>) {
    (e.entity_a, e.entity_b, e.normal, e.collision_point)
}

#[test]
fn started_contact_becomes_an_event() {
    let notice = started(Some(pair(Some(ent(1)), Some(ent(2)), Some(((0.0, 1.0), (3.0, 4.0))))));
    let event = translate_notice(&notice).expect("a started contact with a pair is an event");
    assert_eq!(event.entity_a, Some(ent(1)));
    assert_eq!(event.entity_b, Some(ent(2)));
    assert_eq!(event.collider_handle_a, handle(1));
    assert_eq!(event.collider_handle_b, handle(2));
    assert_eq!(event.normal, Some((0.0, 1.0)));
    assert_eq!(event.collision_point, Some((3.0, 4.0)));
    assert_eq!(event.ty, CollisionType::Started);
}

#[test]
fn stopped_contact_is_not_translated() {
    let notice = stopped(Some(pair(Some(ent(1)), Some(ent(2)), Some(((0.0, 1.0), (3.0, 4.0))))));
    assert!(translate_notice(&notice).is_none());
    assert!(translate_contacts(&vec![notice]).is_empty());
}

#[test]
fn started_contact_without_a_pair_is_skipped() {
    let events = translate_contacts(&vec![started(None)]);
    assert!(events.is_empty());
}

#[test]
fn empty_manifold_still_gives_an_event_without_normal() {
    let events = translate_contacts(&vec![started(Some(pair(Some(ent(1)), Some(ent(2)), None)))]);
    assert_eq!(events.len(), 1);
    assert_eq!(summary(&events[0]), (Some(ent(1)), Some(ent(2)), None, None));
}

#[test]
fn a_pair_of_entities_is_reported_once_per_tick() {
    let first = started(Some(pair(Some(ent(1)), Some(ent(2)), Some(((0.0, 1.0), (3.0, 4.0))))));
    let again = started(Some(pair(Some(ent(1)), Some(ent(2)), Some(((1.0, 0.0), (5.0, 6.0))))));
    let swapped = started(Some(pair(Some(ent(2)), Some(ent(1)), Some(((1.0, 0.0), (7.0, 8.0))))));
    let other = started(Some(pair(Some(ent(1)), Some(ent(3)), Some(((1.0, 0.0), (9.0, 9.0))))));
    let events = translate_contacts(&vec![first, again, swapped, other]);
    assert_eq!(events.len(), 2);
    assert_eq!(summary(&events[0]), (Some(ent(1)), Some(ent(2)), Some((0.0, 1.0)), Some((3.0, 4.0))));
    assert_eq!(summary(&events[1]), (Some(ent(1)), Some(ent(3)), Some((1.0, 0.0)), Some((9.0, 9.0))));
}

#[test]
fn generation_tells_entities_of_one_slot_apart() {
    let old = Entity { id: 1, generation: 1 };
    let new = Entity { id: 1, generation: 2 };
    let events = translate_contacts(&vec![
        started(Some(pair(Some(old), Some(ent(2)), None))),
        started(Some(pair(Some(new), Some(ent(2)), None))),
    ]);
    assert_eq!(events.len(), 2);
}

#[test]
fn contacts_without_an_entity_are_all_passed_on() {
    let events = translate_contacts(&vec![
        started(Some(pair(None, Some(ent(2)), None))),
        started(Some(pair(None, Some(ent(2)), None))),
        started(Some(pair(None, None, None))),
    ]);
    assert_eq!(events.len(), 3);
    assert_eq!(events[0].entity_a, None);
    assert_eq!(events[2].entity_b, None);
}

#[test]
fn events_keep_the_order_of_the_engine() {
    let notices = vec![
        started(Some(pair(Some(ent(5)), Some(ent(6)), None))),
        stopped(None),
        started(Some(pair(Some(ent(3)), Some(ent(4)), None))),
        started(None),
        started(Some(pair(Some(ent(1)), Some(ent(2)), None))),
    ];
    let events = translate_contacts(&notices);
    let order: Vec<u32> = events.iter().map(|e| e.entity_a.unwrap().id).collect();
    assert_eq!(order, vec![5, 3, 1]);
}
