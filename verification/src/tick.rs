//! The order of the stages of one tick.

use vstd::prelude::*;

verus! {

/// A stage of the tick. Within a tick nothing runs in parallel: each stage
/// sees what the stages before it left.
#[derive(Copy, Clone, PartialEq, Eq, Structural, Debug)]
pub enum Stage {
    /// Input moves the paddle.
    Paddle,
    /// Components are pushed into the engine.
    Send,
    /// The engine advances by one step.
    Step,
    /// Contacts become collision events.
    Collide,
    /// Balls and bricks answer the events.
    Respond,
    /// The engine's state comes back into the components.
    Receive,
    /// Queued balls are made.
    Spawn,
    /// Deferred creations and deletions take effect.
    Maintain,
    /// The render collaborator reads the transforms.
    Render,
}

/// The number of stages in a tick.
pub const STAGES: u8 = 9;

impl Stage {
    /// The place of the stage in the tick, from 0.
    pub open spec fn spec_ordinal(self) -> u8 {
        match self {
            Stage::Paddle => 0,
            Stage::Send => 1,
            Stage::Step => 2,
            Stage::Collide => 3,
            Stage::Respond => 4,
            Stage::Receive => 5,
            Stage::Spawn => 6,
            Stage::Maintain => 7,
            Stage::Render => 8,
        }
    }

    /// Computes [`Stage::spec_ordinal`].
    pub fn ordinal(self) -> (place: u8)
        ensures
            place == self.spec_ordinal(),
            place < STAGES,
    {
        match self {
            Stage::Paddle => 0,
            Stage::Send => 1,
            Stage::Step => 2,
            Stage::Collide => 3,
            Stage::Respond => 4,
            Stage::Receive => 5,
            Stage::Spawn => 6,
            Stage::Maintain => 7,
            Stage::Render => 8,
        }
    }

    /// The stage a tick begins with.
    pub fn first() -> (stage: Stage)
        ensures
            stage.spec_ordinal() == 0,
    {
        Stage::Paddle
    }

    /// The stage that follows; after the last stage of a tick comes the
    /// first stage of the next.
    pub fn next(self) -> (stage: Stage)
        ensures
            stage.spec_ordinal() == (self.spec_ordinal() + 1) % (STAGES as int),
    {
        match self {
            Stage::Paddle => Stage::Send,
            Stage::Send => Stage::Step,
            Stage::Step => Stage::Collide,
            Stage::Collide => Stage::Respond,
            Stage::Respond => Stage::Receive,
            Stage::Receive => Stage::Spawn,
            Stage::Spawn => Stage::Maintain,
            Stage::Maintain => Stage::Render,
            Stage::Render => Stage::Paddle,
        }
    }

    /// Whether the stage ends the tick.
    pub fn is_last(self) -> (last: bool)
        ensures
            last == (self.spec_ordinal() == STAGES - 1),
    {
        match self {
            Stage::Render => true,
            _ => false,
        }
    }
}

} // verus!
