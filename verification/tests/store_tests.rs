use brickbonker::entity::Entity;
use brickbonker::store::{find, Entry};
use brickbonker::transform::TransformComponent;

fn ent(id: u32, generation: i32) -> Entity {
    Entity { id, generation }
}

#[test]
fn first_component_of_an_entity_is_found() {
    let entries = vec![
        Entry { entity: ent(1, 1), component: 'a' },
        Entry { entity: ent(2, 1), component: 'b' },
        Entry { entity: ent(1, 1), component: 'c' },
    ];
    assert_eq!(find(&entries, ent(1, 1)), Some(0));
    assert_eq!(find(&entries, ent(2, 1)), Some(1));
    assert_eq!(find(&entries, ent(2, 2)), None);
    assert_eq!(find(&entries, ent(3, 1)), None);
    assert_eq!(find(&Vec::<Entry<char>>::new(), ent(1, 1)), None);
}

#[test]
fn new_transform_rests_where_it_is_put() {
    let transform: TransformComponent<(f64, f64), (f32, f32), (f32, f32)> =
        TransformComponent::new((3.0, 4.0), (0.5, 0.5), (1.0, 1.0));
    assert_eq!(transform.position, (3.0, 4.0));
    assert_eq!(transform.last_position, (3.0, 4.0));
    assert_eq!(transform.origin, (0.5, 0.5));
    assert_eq!(transform.scale, (1.0, 1.0));
}

#[test]
fn advancing_keeps_the_place_left_behind() {
    let mut transform: TransformComponent<(f64, f64), (f32, f32), (f32, f32)> =
        TransformComponent::new((3.0, 4.0), (0.5, 0.5), (1.0, 1.0));
    transform.advance((5.0, 6.0));
    transform.advance((7.0, 8.0));
    assert_eq!(transform.position, (7.0, 8.0));
    assert_eq!(transform.last_position, (5.0, 6.0));
    assert_eq!(transform.scale, (1.0, 1.0));
}
