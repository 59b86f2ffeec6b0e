use brickbonker::entity::Entity;
use brickbonker::paddle::{steer, PlayerPaddleComponent, Steer};

type Vec2 = (f64, f64);
type Paddle = PlayerPaddleComponent<Vec2, Vec2>;

fn ent(id: u32) -> Entity {
    Entity { id, generation: 1 }
}

#[test]
fn keys_steer_the_paddle() {
    assert_eq!(steer(true, false), Steer::Left);
    assert_eq!(steer(false, true), Steer::Right);
    assert_eq!(steer(false, false), Steer::Still);
    assert_eq!(steer(true, true), Steer::Still);
}

#[test]
fn new_paddle_holds_no_ball() {
    let paddle: Paddle = PlayerPaddleComponent::new(320, (0.0, 0.0), (0.0, 0.0));
    assert_eq!(paddle.held_ball_ent, None);
    assert_eq!(paddle.level_width, 320);
    assert_eq!(paddle.held_ball_position, (0.0, 0.0));
    assert_eq!(paddle.movement_linear_velocity, (0.0, 0.0));
}

#[test]
fn settling_keeps_the_held_ball() {
    let mut paddle: Paddle = PlayerPaddleComponent::new(320, (0.0, 0.0), (0.0, 0.0));
    paddle.hold(ent(3));
    paddle.settle((-8.0, 0.0), (92.0, 210.75));
    assert_eq!(paddle.held_ball_ent, Some(ent(3)));
    assert_eq!(paddle.movement_linear_velocity, (-8.0, 0.0));
    assert_eq!(paddle.held_ball_position, (92.0, 210.75));
}

#[test]
fn launch_key_releases_the_held_ball() {
    let mut paddle: Paddle = PlayerPaddleComponent::new(320, (0.0, 0.0), (0.0, 0.0));
    paddle.hold(ent(3));
    assert_eq!(paddle.launch(false), None);
    assert_eq!(paddle.held_ball_ent, Some(ent(3)));
    assert_eq!(paddle.launch(true), Some(ent(3)));
    assert_eq!(paddle.held_ball_ent, None);
    assert_eq!(paddle.launch(true), None);
}
