use brickbonker::ball::{
    ball_sprite, plan_bounces, respond, spawn_ball, spawn_held_ball, spawn_position, update_ball,
    BallComponent, BallFate, BallResponse, SpawnBallEvent,
};
use brickbonker::collision::{CollisionEvent, CollisionType};
use brickbonker::entity::Entity;
use brickbonker::handles::Handle;
use brickbonker::level::{LevelState, LoadLevelEvent};
use brickbonker::paddle::PlayerPaddleComponent;
use brickbonker::physics::{BodyStatus, RigidbodyComponent};
use brickbonker::sprite::SpriteRegion;
use brickbonker::store::Entry;
use brickbonker::transform::TransformComponent;

type Vec2 = (f64, f64);
type Ball = BallComponent<Vec2, Vec2>;
type Paddle = PlayerPaddleComponent<Vec2, Vec2>;

fn ent(id: u32) -> Entity {
    Entity { id, generation: 1 }
}

fn contact(a: Option<Entity>, b: Option<Entity>, normal: Option<Vec2>, point: Option<Vec2>) -> CollisionEvent<Vec2, Vec2> {
    CollisionEvent {
        entity_a: a,
        collider_handle_a: Handle { index: 0, generation: 0 },
        entity_b: b,
        collider_handle_b: Handle { index: 1, generation: 0 },
        normal,
        collision_point: point,
        ty: CollisionType::Started,
    }
}

fn ball(id: u32) -> Entry<Ball> {
    Entry { entity: ent(id), component: BallComponent::new((0.0, 0.0), (2.5, -2.5), None) }
}

fn paddle(id: u32) -> Entry<Paddle> {
    Entry { entity: ent(id), component: PlayerPaddleComponent::new(320, (100.0, 218.0), (0.0, 0.0)) }
}

fn describe(r: &BallResponse<Vec2, Vec2>) -> String {
    match r {
        BallResponse::Paddle { ball, paddle, contact_point } => {
            format!("paddle {} {} {:?}", ball.id, paddle.id, contact_point)
        }
        BallResponse::Reflect { ball, other, normal, flipped } => {
            format!("reflect {} {} {:?} {}", ball.id, other.id, normal, flipped)
        }
    }
}

fn playing(lives: u32) -> LevelState {
    let mut level = LevelState::new(320, 240, LoadLevelEvent { level: 0 });
    level.setup(1, ent(50));
    level.lives = lives;
    level
}

#[test]
fn ball_on_paddle_is_deflected_from_the_contact_point() {
    let balls = vec![ball(1)];
    let paddles = vec![paddle(50)];
    let event = contact(Some(ent(1)), Some(ent(50)), Some((0.0, 1.0)), Some((129.0, 214.0)));
    let response = respond(&event, &balls, &paddles).unwrap();
    assert_eq!(describe(&response), "paddle 1 50 Some((129.0, 214.0))");
    assert_eq!(response.ball(), ent(1));
}

#[test]
fn ball_on_paddle_without_contact_point_is_still_deflected() {
    let balls = vec![ball(1)];
    let paddles = vec![paddle(50)];
    let event = contact(Some(ent(50)), Some(ent(1)), None, None);
    let response = respond(&event, &balls, &paddles).unwrap();
    assert_eq!(describe(&response), "paddle 1 50 None");
}

#[test]
fn ball_on_wall_is_reflected_about_the_normal() {
    let balls = vec![ball(1)];
    let paddles = vec![paddle(50)];
    let first = contact(Some(ent(1)), Some(ent(7)), Some((1.0, 0.0)), Some((0.0, 5.0)));
    let second = contact(Some(ent(7)), Some(ent(1)), Some((1.0, 0.0)), Some((0.0, 5.0)));
    assert_eq!(describe(&respond(&first, &balls, &paddles).unwrap()), "reflect 1 7 (1.0, 0.0) false");
    assert_eq!(describe(&respond(&second, &balls, &paddles).unwrap()), "reflect 1 7 (1.0, 0.0) true");
}

#[test]
fn contact_without_normal_or_entity_or_ball_calls_for_nothing() {
    let balls = vec![ball(1)];
    let paddles = vec![paddle(50)];
    assert!(respond(&contact(Some(ent(1)), Some(ent(7)), None, None), &balls, &paddles).is_none());
    assert!(respond(&contact(Some(ent(1)), None, Some((1.0, 0.0)), None), &balls, &paddles).is_none());
    assert!(respond(&contact(None, Some(ent(1)), Some((1.0, 0.0)), None), &balls, &paddles).is_none());
    assert!(respond(&contact(Some(ent(7)), Some(ent(50)), Some((1.0, 0.0)), None), &balls, &paddles).is_none());
}

#[test]
fn corner_hit_changes_the_velocity_once() {
    let balls = vec![ball(1), ball(2)];
    let paddles = vec![paddle(50)];
    let events = vec![
        contact(Some(ent(1)), Some(ent(7)), Some((1.0, 0.0)), None),
        contact(Some(ent(1)), Some(ent(8)), Some((0.0, 1.0)), None),
        contact(Some(ent(9)), Some(ent(2)), Some((0.0, -1.0)), None),
        contact(Some(ent(1)), Some(ent(50)), None, None),
    ];
    let responses = plan_bounces(&events, &balls, &paddles);
    let described: Vec<String> = responses.iter().map(describe).collect();
    assert_eq!(described, vec!["reflect 1 7 (1.0, 0.0) false", "reflect 2 9 (0.0, -1.0) true"]);
}

#[test]
fn event_without_normal_does_not_use_up_the_bounce() {
    let balls = vec![ball(1)];
    let paddles = vec![paddle(50)];
    let events = vec![
        contact(Some(ent(1)), Some(ent(7)), None, None),
        contact(Some(ent(1)), Some(ent(8)), Some((0.0, 1.0)), None),
    ];
    let responses = plan_bounces(&events, &balls, &paddles);
    let described: Vec<String> = responses.iter().map(describe).collect();
    assert_eq!(described, vec!["reflect 1 8 (0.0, 1.0) false"]);
}

#[test]
fn no_events_no_bounces() {
    let balls = vec![ball(1)];
    let paddles = vec![paddle(50)];
    assert!(plan_bounces(&Vec::<CollisionEvent<Vec2, Vec2>>::new(), &balls, &paddles).is_empty());
}

fn parts() -> (TransformComponent<Vec2, Vec2, Vec2>, RigidbodyComponent<Vec2, f64>) {
    let transform = TransformComponent::new((160.0, 120.0), (0.5, 0.5), (1.0, 1.0));
    let mut rigidbody = RigidbodyComponent::new(1.0, (9.0, 9.0), BodyStatus::Dynamic);
    rigidbody.handle = Some(Handle { index: 1, generation: 0 });
    (transform, rigidbody)
}

fn respawn() -> SpawnBallEvent<Vec2, Vec2> {
    SpawnBallEvent { position: (0.0, 0.0), linear_velocity: (0.0, 0.0), owning_paddle_ent: None }
}

#[test]
fn held_ball_is_pinned_to_the_paddle() {
    let held: Ball = BallComponent::new((0.0, 0.0), (2.5, -2.5), Some(ent(50)));
    let (mut transform, mut rigidbody) = parts();
    let mut level = playing(3);
    let fate = update_ball(&held, &mut transform, &mut rigidbody, Some((100.0, 210.75)), true, &mut level, respawn());
    assert!(matches!(fate, BallFate::Held));
    assert_eq!(transform.position, (100.0, 210.75));
    assert_eq!(transform.last_position, (160.0, 120.0));
    assert_eq!(rigidbody.status, BodyStatus::Disabled);
    assert_eq!(rigidbody.velocity, (9.0, 9.0));
    assert_eq!(level.lives, 3);
}

#[test]
fn flying_ball_overrides_the_engine_velocity() {
    let flying: Ball = BallComponent::new((0.0, 0.0), (2.5, -2.5), None);
    let (mut transform, mut rigidbody) = parts();
    rigidbody.status = BodyStatus::Disabled;
    let mut level = playing(3);
    let fate = update_ball(&flying, &mut transform, &mut rigidbody, None, false, &mut level, respawn());
    assert!(matches!(fate, BallFate::Flying));
    assert_eq!(rigidbody.velocity, (2.5, -2.5));
    assert_eq!(rigidbody.status, BodyStatus::Dynamic);
    assert_eq!(transform.position, (160.0, 120.0));
    assert_eq!(level.lives, 3);
}

#[test]
fn ball_below_playfield_costs_a_life_and_spawns_one_ball() {
    let flying: Ball = BallComponent::new((0.0, 0.0), (2.5, 2.5), None);
    let (mut transform, mut rigidbody) = parts();
    let mut level = playing(3);
    let fate = update_ball(&flying, &mut transform, &mut rigidbody, None, true, &mut level, respawn());
    assert_eq!(level.lives, 2);
    match fate {
        BallFate::Lost { spawn: Some(event) } => {
            assert_eq!(event.position, (0.0, 0.0));
            assert_eq!(event.linear_velocity, (0.0, 0.0));
            assert_eq!(event.owning_paddle_ent, Some(ent(50)));
        }
        _ => panic!("a lost ball with lives left asks for a new ball"),
    }
    assert_eq!(level.score, 0);
    assert_eq!(level.player_paddle_ent, Some(ent(50)));
}

#[test]
fn last_ball_lost_is_game_over() {
    let flying: Ball = BallComponent::new((0.0, 0.0), (2.5, 2.5), None);
    let (mut transform, mut rigidbody) = parts();
    let mut level = playing(1);
    let fate = update_ball(&flying, &mut transform, &mut rigidbody, None, true, &mut level, respawn());
    assert_eq!(level.lives, 0);
    assert!(matches!(fate, BallFate::Lost { spawn: None }));
}

#[test]
fn launch_frees_the_ball() {
    let mut held: Ball = BallComponent::new((0.0, 0.0), (0.0, 0.0), Some(ent(50)));
    held.launch((4.0, -5.0));
    assert_eq!(held.holding_paddle_ent, None);
    assert_eq!(held.velocity, (4.0, -5.0));
    held.deflect((5.0, -4.85));
    assert_eq!(held.velocity, (5.0, -4.85));
    assert_eq!(held.holding_paddle_ent, None);
}

#[test]
fn ball_spawns_on_the_owning_paddle() {
    let owned = SpawnBallEvent { position: (160.0, 120.0), linear_velocity: (2.5, -2.5), owning_paddle_ent: Some(ent(50)) };
    let free = SpawnBallEvent { position: (160.0, 120.0), linear_velocity: (2.5, -2.5), owning_paddle_ent: None };
    assert_eq!(spawn_position(&owned, Some((100.0, 210.75))), (100.0, 210.75));
    assert_eq!(spawn_position(&free, Some((100.0, 210.75))), (160.0, 120.0));
    assert_eq!(spawn_position(&free, None), (160.0, 120.0));

    let mut holder: Paddle = PlayerPaddleComponent::new(320, (100.0, 210.75), (0.0, 0.0));
    let ball: Ball = spawn_held_ball(&owned, ent(9), (0.0, 0.0), &mut holder);
    assert_eq!(holder.held_ball_ent, Some(ent(9)));
    assert_eq!(ball.holding_paddle_ent, Some(ent(50)));
    assert_eq!(ball.velocity, (2.5, -2.5));

    let loose: Ball = spawn_ball(&free, (0.0, 0.0));
    assert_eq!(loose.holding_paddle_ent, None);
    assert_eq!(loose.velocity, (2.5, -2.5));
    assert_eq!(ball_sprite(), SpriteRegion { x: 64, y: 0, w: 32, h: 32 });
}
