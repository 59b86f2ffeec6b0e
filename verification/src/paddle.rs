//! The player's paddle: which way it moves and when it lets go of a ball.

use vstd::prelude::*;
use crate::entity::Entity;

verus! {

pub const PADDLE_SPRITE_WIDTH: u32 = 64;

pub const PADDLE_SPRITE_HEIGHT: u32 = 32;

/// The paddle of a player. `P` is the type of a position and `V` that of
/// a velocity.
#[derive(Copy, Clone, Debug)]
pub struct PlayerPaddleComponent<P, V> {
    /// The ball that rides the paddle, if one does.
    pub held_ball_ent: Option<Entity>,
    /// Where a held ball sits, above the middle of the paddle.
    pub held_ball_position: P,
    pub level_width: u32,
    /// How the paddle moved in this tick.
    pub movement_linear_velocity: V,
}

/// The way the player steers the paddle in a tick.
#[derive(Copy, Clone, PartialEq, Eq, Structural, Debug)]
pub enum Steer {
    Left,
    Still,
    Right,
}

/// What the keys held in a tick ask of the paddle: left or right, and
/// nothing when both or neither are held.
pub open spec fn spec_steer(left_held: bool, right_held: bool) -> Steer {
    if left_held && !right_held {
        Steer::Left
    } else if right_held && !left_held {
        Steer::Right
    } else {
        Steer::Still
    }
}

/// Computes [`spec_steer`].
pub fn steer(left_held: bool, right_held: bool) -> (way: Steer)
    ensures
        way == spec_steer(left_held, right_held),
{
    if left_held && !right_held {
        Steer::Left
    } else if right_held && !left_held {
        Steer::Right
    } else {
        Steer::Still
    }
}

impl<P: Copy, V: Copy> PlayerPaddleComponent<P, V> {
    /// A paddle at rest that holds no ball.
    pub fn new(level_width: u32, held_ball_position: P, movement_linear_velocity: V) -> (paddle:
        Self)
        ensures
            paddle.held_ball_ent is None,
            paddle.held_ball_position == held_ball_position,
            paddle.level_width == level_width,
            paddle.movement_linear_velocity == movement_linear_velocity,
    {
        PlayerPaddleComponent {
            held_ball_ent: None,
            held_ball_position,
            level_width,
            movement_linear_velocity,
        }
    }

    /// Notes how the paddle moved in this tick and where a held ball now
    /// sits.
    pub fn settle(&mut self, movement_linear_velocity: V, held_ball_position: P)
        ensures
            final(self).movement_linear_velocity == movement_linear_velocity,
            final(self).held_ball_position == held_ball_position,
            final(self).held_ball_ent == old(self).held_ball_ent,
            final(self).level_width == old(self).level_width,
    {
        self.movement_linear_velocity = movement_linear_velocity;
        self.held_ball_position = held_ball_position;
    }

    /// Takes hold of `ball`.
    pub fn hold(&mut self, ball: Entity)
        ensures
            final(self).held_ball_ent == Some(ball),
            final(self).held_ball_position == old(self).held_ball_position,
            final(self).level_width == old(self).level_width,
            final(self).movement_linear_velocity == old(self).movement_linear_velocity,
    {
        self.held_ball_ent = Some(ball);
    }

    /// Lets go of the held ball when the launch key was pressed in this
    /// tick: the ball is handed back and the paddle holds none. Without
    /// the key, or without a ball, nothing happens.
    pub fn launch(&mut self, launch_pressed: bool) -> (released: Option<Entity>)
        ensures
            released == (if launch_pressed {
                old(self).held_ball_ent
            } else {
                None
            }),
            final(self).held_ball_ent == (if launch_pressed {
                None
            } else {
                old(self).held_ball_ent
            }),
            final(self).held_ball_position == old(self).held_ball_position,
            final(self).level_width == old(self).level_width,
            final(self).movement_linear_velocity == old(self).movement_linear_velocity,
    {
        if launch_pressed {
            let released = self.held_ball_ent;
            self.held_ball_ent = None;
            released
        } else {
            None
        }
    }
}

} // verus!
