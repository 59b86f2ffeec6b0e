use brickbonker::ball::BallComponent;
use brickbonker::brick::{run_bricks, struck_brick, BrickComponent, BRICK_REWARD};
use brickbonker::collision::{CollisionEvent, CollisionType};
use brickbonker::entity::Entity;
use brickbonker::handles::Handle;
use brickbonker::level::{LevelState, LoadLevelEvent};
use brickbonker::store::Entry;

type Vec2 = (f64, f64);
type Ball = BallComponent<Vec2, Vec2>;

fn ent(id: u32) -> Entity {
    Entity { id, generation: 1 }
}

fn contact(a: Option<Entity>, b: Option<Entity>) -> CollisionEvent<Vec2, Vec2> {
    CollisionEvent {
        entity_a: a,
        collider_handle_a: Handle { index: 0, generation: 0 },
        entity_b: b,
        collider_handle_b: Handle { index: 1, generation: 0 },
        normal: Some((0.0, 1.0)),
        collision_point: Some((0.0, 0.0)),
        ty: CollisionType::Started,
    }
}

fn brick(id: u32, hp: i32) -> Entry<BrickComponent> {
    Entry { entity: ent(id), component: BrickComponent::new(hp) }
}

fn ball(id: u32) -> Entry<Ball> {
    Entry { entity: ent(id), component: BallComponent::new((0.0, 0.0), (2.5, -2.5), None) }
}

fn playing() -> LevelState {
    let mut level = LevelState::new(320, 240, LoadLevelEvent { level: 0 });
    level.setup(3, ent(100));
    level
}

#[test]
fn brick_made_without_hit_points_is_indestructible() {
    assert!(BrickComponent::new(0).is_indestructible);
    assert!(BrickComponent::new(-1).is_indestructible);
    assert!(!BrickComponent::new(1).is_indestructible);
    assert_eq!(BrickComponent::new(2).hp, 2);
}

#[test]
fn hit_takes_one_point_and_breaks_at_zero() {
    let mut two = BrickComponent::new(2);
    assert!(!two.take_hit());
    assert_eq!(two.hp, 1);
    assert!(two.take_hit());
    assert_eq!(two.hp, 0);
    let mut grey = BrickComponent::new(0);
    assert!(!grey.take_hit());
    assert_eq!(grey.hp, 0);
}

#[test]
fn brick_and_ball_are_found_in_either_order() {
    let bricks = vec![brick(1, 2)];
    let balls = vec![ball(9)];
    assert_eq!(struck_brick(&contact(Some(ent(1)), Some(ent(9))), &bricks, &balls), Some(ent(1)));
    assert_eq!(struck_brick(&contact(Some(ent(9)), Some(ent(1))), &bricks, &balls), Some(ent(1)));
    assert_eq!(struck_brick(&contact(Some(ent(1)), Some(ent(1))), &bricks, &balls), None);
    assert_eq!(struck_brick(&contact(Some(ent(1)), None), &bricks, &balls), None);
    assert_eq!(struck_brick(&contact(None, Some(ent(9))), &bricks, &balls), None);
    assert_eq!(struck_brick(&contact(Some(ent(1)), Some(ent(5))), &bricks, &balls), None);
}

#[test]
fn brick_takes_one_hit_per_tick_from_many_contacts() {
    let mut bricks = vec![brick(1, 3), brick(2, 3)];
    let balls = vec![ball(8), ball(9)];
    let mut level = playing();
    let events = vec![
        contact(Some(ent(1)), Some(ent(8))),
        contact(Some(ent(9)), Some(ent(1))),
        contact(Some(ent(1)), Some(ent(8))),
    ];
    let tick = run_bricks(&events, &mut bricks, &balls, &mut level);
    assert_eq!(bricks[0].component.hp, 2);
    assert_eq!(bricks[1].component.hp, 3);
    assert!(tick.destroyed.is_empty());
    assert!(!tick.advance_queued);
    assert_eq!(level.score, 0);
}

#[test]
fn brick_at_zero_scores_the_reward_once() {
    let mut bricks = vec![brick(1, 1), brick(2, 2)];
    let balls = vec![ball(8), ball(9)];
    let mut level = playing();
    let events = vec![contact(Some(ent(1)), Some(ent(8))), contact(Some(ent(1)), Some(ent(9)))];
    let tick = run_bricks(&events, &mut bricks, &balls, &mut level);
    assert_eq!(tick.destroyed, vec![ent(1)]);
    assert_eq!(bricks[0].component.hp, 0);
    assert_eq!(level.score, BRICK_REWARD);
    assert_eq!(level.score, 100);
    assert_eq!(level.load_level_event, None);
    assert_eq!(level.lives, 99);
}

#[test]
fn indestructible_brick_is_never_damaged() {
    let mut bricks = vec![brick(1, 0), brick(2, 1)];
    let balls = vec![ball(9)];
    let mut level = playing();
    let tick = run_bricks(&vec![contact(Some(ent(1)), Some(ent(9)))], &mut bricks, &balls, &mut level);
    assert!(tick.destroyed.is_empty());
    assert_eq!(bricks[0].component, BrickComponent { hp: 0, is_indestructible: true });
    assert_eq!(level.score, 0);
    assert!(!tick.advance_queued);
}

#[test]
fn contact_without_ball_or_with_missing_entity_does_no_damage() {
    let mut bricks = vec![brick(1, 1), brick(2, 1)];
    let balls = vec![ball(9)];
    let mut level = playing();
    let events = vec![
        contact(Some(ent(1)), Some(ent(2))),
        contact(Some(ent(1)), None),
        contact(None, Some(ent(9))),
        contact(Some(Entity { id: 1, generation: 2 }), Some(ent(9))),
    ];
    let tick = run_bricks(&events, &mut bricks, &balls, &mut level);
    assert!(tick.destroyed.is_empty());
    assert_eq!(bricks[0].component.hp, 1);
    assert_eq!(bricks[1].component.hp, 1);
}

#[test]
fn last_brick_broken_queues_the_next_level_once() {
    let mut bricks = vec![brick(1, 1), brick(2, 0)];
    let balls = vec![ball(9)];
    let mut level = playing();
    let events = vec![contact(Some(ent(9)), Some(ent(1)))];
    let tick = run_bricks(&events, &mut bricks, &balls, &mut level);
    assert_eq!(tick.destroyed, vec![ent(1)]);
    assert!(tick.advance_queued);
    assert_eq!(level.load_level_event, Some(LoadLevelEvent { level: 4 }));
    assert_eq!(level.score, 100);

    let mut left = vec![brick(2, 0)];
    let again = run_bricks(&events, &mut left, &balls, &mut level);
    assert!(!again.advance_queued);
    assert!(again.destroyed.is_empty());
    assert_eq!(level.load_level_event, Some(LoadLevelEvent { level: 4 }));
    assert_eq!(level.score, 100);
}

#[test]
fn pending_level_load_suppresses_the_request() {
    let mut bricks: Vec<Entry<BrickComponent>> = vec![];
    let balls: Vec<Entry<Ball>> = vec![];
    let mut level = LevelState::new(320, 240, LoadLevelEvent { level: 0 });
    let tick = run_bricks(&Vec::<CollisionEvent<Vec2, Vec2>>::new(), &mut bricks, &balls, &mut level);
    assert!(!tick.advance_queued);
    assert_eq!(level.load_level_event, Some(LoadLevelEvent { level: 0 }));
}

#[test]
fn two_bricks_broken_in_one_tick_score_twice() {
    let mut bricks = vec![brick(1, 1), brick(2, 1), brick(3, 2)];
    let balls = vec![ball(8), ball(9)];
    let mut level = playing();
    let events = vec![contact(Some(ent(2)), Some(ent(8))), contact(Some(ent(1)), Some(ent(9)))];
    let tick = run_bricks(&events, &mut bricks, &balls, &mut level);
    assert_eq!(tick.destroyed, vec![ent(1), ent(2)]);
    assert_eq!(level.score, 200);
    assert!(!tick.advance_queued);
}
