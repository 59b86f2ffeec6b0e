//! Balls: which contact a ball answers in a tick, how a ball moves from
//! the paddle into play and out of it, and how a new one is spawned.

use vstd::prelude::*;
use crate::audio::SoundCue;
use crate::collision::CollisionEvent;
use crate::entity::Entity;
use crate::idset::{bitset_add, bitset_contains, bitset_new, members, index_limit};
use crate::level::LevelState;
use crate::paddle::PlayerPaddleComponent;
use crate::physics::{BodyStatus, RigidbodyComponent};
use crate::sprite::SpriteRegion;
use crate::store::{find, holds, Entry};
use crate::transform::TransformComponent;

verus! {

/// The collision group of balls.
pub const BALL_GROUP: u32 = 1;

/// The collision group of paddles, bricks and walls.
pub const SOLID_GROUP: u32 = 2;

/// A request to make a ball. `P` is the type of a position and `V` that
/// of a velocity.
#[derive(Copy, Clone, Debug)]
pub struct SpawnBallEvent<P, V> {
    pub position: P,
    pub linear_velocity: V,
    /// The paddle that the ball is to ride until it is launched.
    pub owning_paddle_ent: Option<Entity>,
}

/// A ball. `L` is the type of its last drawn position and `V` that of its
/// velocity.
#[derive(Copy, Clone, Debug)]
pub struct BallComponent<L, V> {
    pub last_pos: L,
    /// The paddle that the ball rides; `None` once it is in play.
    pub holding_paddle_ent: Option<Entity>,
    /// The velocity that the rules of the game give the ball.
    pub velocity: V,
}

impl<L: Copy, V: Copy> BallComponent<L, V> {
    /// A ball with the given velocity, riding `holding_paddle_ent` if one
    /// is given.
    pub fn new(last_pos: L, linear_velocity: V, holding_paddle_ent: Option<Entity>) -> (ball: Self)
        ensures
            ball.last_pos == last_pos,
            ball.velocity == linear_velocity,
            ball.holding_paddle_ent == holding_paddle_ent,
    {
        BallComponent { last_pos, velocity: linear_velocity, holding_paddle_ent }
    }

    /// Whether the ball rides a paddle.
    pub open spec fn is_held(&self) -> bool {
        self.holding_paddle_ent is Some
    }

    /// Sends the ball off the paddle with the given velocity.
    pub fn launch(&mut self, velocity: V)
        ensures
            !final(self).is_held(),
            final(self).velocity == velocity,
            final(self).last_pos == old(self).last_pos,
    {
        self.holding_paddle_ent = None;
        self.velocity = velocity;
    }

    /// Gives the ball the velocity that a bounce worked out.
    pub fn deflect(&mut self, velocity: V)
        ensures
            final(self).velocity == velocity,
            final(self).holding_paddle_ent == old(self).holding_paddle_ent,
            final(self).last_pos == old(self).last_pos,
    {
        self.velocity = velocity;
    }
}

/// How a ball answers a contact. `N` is the type of a contact normal and
/// `P` that of a contact point.
#[derive(Copy, Clone, Debug)]
pub enum BallResponse<N, P> {
    /// The ball met a paddle and is sent upward, sideways by where along
    /// the paddle it hit. Without a contact point the ball's own position
    /// stands in for it.
    Paddle { ball: Entity, paddle: Entity, contact_point: Option<P> },
    /// The ball met a wall or a brick and is reflected about the normal.
    /// `flipped` is set when the ball is the second entity of the event:
    /// the normal then points the other way round than for a ball that is
    /// the first.
    Reflect { ball: Entity, other: Entity, normal: N, flipped: bool },
}

impl<N, P> BallResponse<N, P> {
    /// The ball that answers.
    pub open spec fn spec_ball(self) -> Entity {
        match self {
            BallResponse::Paddle { ball, .. } => ball,
            BallResponse::Reflect { ball, .. } => ball,
        }
    }

    /// The sound of the answer.
    pub fn cue(&self) -> (cue: SoundCue)
        ensures
            cue == (match self {
                BallResponse::Paddle { .. } => SoundCue::BallPaddle,
                BallResponse::Reflect { .. } => SoundCue::BallWall,
            }),
    {
        match self {
            BallResponse::Paddle { .. } => SoundCue::BallPaddle,
            BallResponse::Reflect { .. } => SoundCue::BallWall,
        }
    }

    /// Computes [`BallResponse::spec_ball`].
    pub fn ball(&self) -> (ball: Entity)
        ensures
            ball == self.spec_ball(),
    {
        match self {
            BallResponse::Paddle { ball, .. } => *ball,
            BallResponse::Reflect { ball, .. } => *ball,
        }
    }
}

/// The answer that one event calls for, were it the only event of the
/// tick. An event that lacks an entity calls for none. The ball is the
/// first entity if that is a ball, else the second if that is one. A
/// paddle on the other side deflects the ball; anything else reflects it,
/// if the event has a normal.
pub open spec fn response_of<N, P, L, V, Q, W>(
    event: CollisionEvent<N, P>,
    balls: Seq<Entry<BallComponent<L, V>>>,
    paddles: Seq<Entry<PlayerPaddleComponent<Q, W>>>,
) -> Option<BallResponse<N, P>> {
    match (event.entity_a, event.entity_b) {
        (Some(a), Some(b)) => {
            if holds(balls, a) {
                answer(a, b, false, event, paddles)
            } else if holds(balls, b) {
                answer(b, a, true, event, paddles)
            } else {
                None
            }
        },
        _ => None,
    }
}

/// The answer of `ball` to its contact with `other`.
pub open spec fn answer<N, P, Q, W>(
    ball: Entity,
    other: Entity,
    flipped: bool,
    event: CollisionEvent<N, P>,
    paddles: Seq<Entry<PlayerPaddleComponent<Q, W>>>,
) -> Option<BallResponse<N, P>> {
    if holds(paddles, other) {
        Some(BallResponse::Paddle { ball, paddle: other, contact_point: event.collision_point })
    } else {
        match event.normal {
            Some(normal) => Some(BallResponse::Reflect { ball, other, normal, flipped }),
            None => None,
        }
    }
}

/// Whether the ball with index `id` has an answer in `earlier`.
pub open spec fn already_bounced<N, P>(earlier: Seq<BallResponse<N, P>>, id: u32) -> bool {
    exists|i: int| 0 <= i < earlier.len() && (#[trigger] earlier[i]).spec_ball().id == id
}

/// The answers of a tick, in the order of the events: each ball answers
/// the first event that calls for an answer from it and ignores the rest.
pub open spec fn tick_responses<N, P, L, V, Q, W>(
    events: Seq<CollisionEvent<N, P>>,
    balls: Seq<Entry<BallComponent<L, V>>>,
    paddles: Seq<Entry<PlayerPaddleComponent<Q, W>>>,
) -> Seq<BallResponse<N, P>>
    decreases events.len(),
{
    if events.len() == 0 {
        Seq::empty()
    } else {
        let earlier = tick_responses(events.drop_last(), balls, paddles);
        match response_of(events.last(), balls, paddles) {
            Some(response) => if already_bounced(earlier, response.spec_ball().id) {
                earlier
            } else {
                earlier.push(response)
            },
            None => earlier,
        }
    }
}

/// Computes [`response_of`].
pub fn respond<N: Copy, P: Copy, L, V, Q, W>(
    event: &CollisionEvent<N, P>,
    balls: &Vec<Entry<BallComponent<L, V>>>,
    paddles: &Vec<Entry<PlayerPaddleComponent<Q, W>>>,
) -> (response: Option<BallResponse<N, P>>)
    ensures
        response == response_of(*event, balls@, paddles@),
{
    let (a, b) = match (event.entity_a, event.entity_b) {
        (Some(a), Some(b)) => (a, b),
        _ => {
            return None;
        },
    };
    let (ball, other, flipped) = if find(balls, a).is_some() {
        (a, b, false)
    } else if find(balls, b).is_some() {
        (b, a, true)
    } else {
        return None;
    };
    if find(paddles, other).is_some() {
        Some(BallResponse::Paddle { ball, paddle: other, contact_point: event.collision_point })
    } else {
        match event.normal {
            Some(normal) => Some(BallResponse::Reflect { ball, other, normal, flipped }),
            None => None,
        }
    }
}

/// Works out the answers of one tick.
pub fn plan_bounces<N: Copy, P: Copy, L, V, Q, W>(
    events: &Vec<CollisionEvent<N, P>>,
    balls: &Vec<Entry<BallComponent<L, V>>>,
    paddles: &Vec<Entry<PlayerPaddleComponent<Q, W>>>,
) -> (responses: Vec<BallResponse<N, P>>)
    requires
        forall|i: int| 0 <= i < balls.len() ==> (#[trigger] balls[i]).entity.id < index_limit(),
    ensures
        responses@ == tick_responses(events@, balls@, paddles@),
{
    let mut balls_bounced_this_tick = bitset_new();
    let mut responses: Vec<BallResponse<N, P>> = Vec::new();
    let mut k: usize = 0;
    while k < events.len()
        invariant
            k <= events.len(),
            forall|i: int| 0 <= i < balls.len() ==> (#[trigger] balls[i]).entity.id < index_limit(),
            responses@ == tick_responses(events@.take(k as int), balls@, paddles@),
            forall|id: u32|
                members(balls_bounced_this_tick).contains(id) <==> already_bounced(responses@, id),
        decreases events.len() - k,
    {
        proof {
            assert(events@.take(k + 1).drop_last() == events@.take(k as int));
        }
        if let Some(response) = respond(&events[k], balls, paddles) {
            let ball = response.ball();
            let ghost earlier = responses@;
            proof {
                let i = choose|i: int| 0 <= i < balls.len() && (#[trigger] balls[i]).entity == ball;
                assert(balls[i].entity.id < index_limit());
            }
            if !bitset_contains(&balls_bounced_this_tick, ball.id) {
                bitset_add(&mut balls_bounced_this_tick, ball.id);
                responses.push(response);
                proof {
                    let later = responses@;
                    assert forall|id: u32|
                        members(balls_bounced_this_tick).contains(id) <==> already_bounced(
                            later,
                            id,
                        ) by {
                        if already_bounced(earlier, id) {
                            let i = choose|i: int|
                                0 <= i < earlier.len() && (#[trigger] earlier[i]).spec_ball().id
                                    == id;
                            assert(later[i] == earlier[i]);
                        }
                        if id == ball.id {
                            assert(later[earlier.len() as int].spec_ball().id == id);
                        }
                        if already_bounced(later, id) {
                            let i = choose|i: int|
                                0 <= i < later.len() && (#[trigger] later[i]).spec_ball().id == id;
                            if i < earlier.len() {
                                assert(later[i] == earlier[i]);
                            }
                        }
                    }
                }
            }
        }
        k = k + 1;
    }
    proof {
        assert(events@.take(events@.len() as int) == events@);
    }
    responses
}

/// A ball answers at most one event of a tick: no two answers belong to
/// balls with the same index.
pub proof fn lemma_one_bounce_per_ball<N, P, L, V, Q, W>(
    events: Seq<CollisionEvent<N, P>>,
    balls: Seq<Entry<BallComponent<L, V>>>,
    paddles: Seq<Entry<PlayerPaddleComponent<Q, W>>>,
    i: int,
    j: int,
)
    requires
        0 <= i < j < tick_responses(events, balls, paddles).len(),
    ensures
        tick_responses(events, balls, paddles)[i].spec_ball().id != tick_responses(
            events,
            balls,
            paddles,
        )[j].spec_ball().id,
    decreases events.len(),
{
    if events.len() > 0 {
        let earlier = tick_responses(events.drop_last(), balls, paddles);
        if j < earlier.len() {
            lemma_one_bounce_per_ball(events.drop_last(), balls, paddles, i, j);
        } else {
            let response = response_of(events.last(), balls, paddles)->0;
            assert(!already_bounced(earlier, response.spec_ball().id));
            assert(earlier[i] == tick_responses(events, balls, paddles)[i]);
        }
    }
}

/// A ball that some event of the tick calls on does answer: with the
/// lemma above, its velocity is changed by exactly one event.
pub proof fn lemma_called_ball_bounces<N, P, L, V, Q, W>(
    events: Seq<CollisionEvent<N, P>>,
    balls: Seq<Entry<BallComponent<L, V>>>,
    paddles: Seq<Entry<PlayerPaddleComponent<Q, W>>>,
    k: int,
)
    requires
        0 <= k < events.len(),
        response_of(events[k], balls, paddles) is Some,
    ensures
        already_bounced(
            tick_responses(events, balls, paddles),
            response_of(events[k], balls, paddles)->0.spec_ball().id,
        ),
    decreases events.len(),
{
    let all = tick_responses(events, balls, paddles);
    let earlier = tick_responses(events.drop_last(), balls, paddles);
    let ball = response_of(events[k], balls, paddles)->0.spec_ball();
    if k == events.len() - 1 {
        if already_bounced(earlier, ball.id) {
            let i = choose|i: int|
                0 <= i < earlier.len() && (#[trigger] earlier[i]).spec_ball().id == ball.id;
            assert(all[i] == earlier[i]);
        } else {
            assert(all[all.len() - 1].spec_ball().id == ball.id);
        }
    } else {
        lemma_called_ball_bounces(events.drop_last(), balls, paddles, k);
        let i = choose|i: int|
            0 <= i < earlier.len() && (#[trigger] earlier[i]).spec_ball().id == ball.id;
        assert(all[i] == earlier[i]);
    }
}

/// What became of a ball in a tick.
#[derive(Copy, Clone, Debug)]
pub enum BallFate<P, V> {
    /// The ball rides its paddle.
    Held,
    /// The ball is in play.
    Flying,
    /// The ball fell out of the playfield; its entity is to be deleted.
    /// With a life left a new ball is asked for; without, the game is
    /// over.
    Lost { spawn: Option<SpawnBallEvent<P, V>> },
}

/// The run after a ball was lost: one life fewer.
pub open spec fn after_loss(level: LevelState) -> LevelState {
    LevelState { lives: (level.lives - 1) as u32, ..level }
}

/// One tick of a ball. A held ball is pinned to the anchor of its paddle
/// and its body is taken out of the simulation. A ball in play has its
/// body driven at the ball's own velocity, whatever the engine made of
/// it; if it is below the playfield it costs a life and, unless that was
/// the last one, a new ball is asked for on the player's paddle.
pub fn update_ball<L: Copy, V: Copy, P: Copy, O: Copy, S: Copy, M: Copy>(
    ball: &BallComponent<L, V>,
    transform: &mut TransformComponent<P, O, S>,
    rigidbody: &mut RigidbodyComponent<V, M>,
    anchor: Option<P>,
    below_playfield: bool,
    level: &mut LevelState,
    respawn: SpawnBallEvent<P, V>,
) -> (fate: BallFate<P, V>)
    requires
        ball.is_held() ==> anchor is Some,
        !ball.is_held() && below_playfield ==> old(level).lives > 0,
    ensures
        final(transform).last_position == old(transform).last_position,
        final(transform).origin == old(transform).origin,
        final(transform).scale == old(transform).scale,
        final(rigidbody).last_velocity == old(rigidbody).last_velocity,
        final(rigidbody).handle == old(rigidbody).handle,
        final(rigidbody).mass == old(rigidbody).mass,
        ball.is_held() ==> {
            &&& fate is Held
            &&& final(transform).position == anchor->0
            &&& final(rigidbody).status == BodyStatus::Disabled
            &&& final(rigidbody).velocity == old(rigidbody).velocity
            &&& *final(level) == *old(level)
        },
        !ball.is_held() ==> {
            &&& final(transform).position == old(transform).position
            &&& final(rigidbody).status == BodyStatus::Dynamic
            &&& final(rigidbody).velocity == ball.velocity
        },
        !ball.is_held() && !below_playfield ==> fate is Flying && *final(level) == *old(level),
        !ball.is_held() && below_playfield ==> {
            &&& *final(level) == after_loss(*old(level))
            &&& fate matches BallFate::Lost { spawn }
            &&& spawn is Some <==> final(level).lives > 0
            &&& spawn matches Some(event) ==> {
                &&& event.position == respawn.position
                &&& event.linear_velocity == respawn.linear_velocity
                &&& event.owning_paddle_ent == old(level).player_paddle_ent
            }
        },
{
    if ball.holding_paddle_ent.is_some() {
        match anchor {
            Some(position) => {
                transform.position = position;
            },
            None => {},
        }
        rigidbody.status = BodyStatus::Disabled;
        return BallFate::Held;
    }
    rigidbody.status = BodyStatus::Dynamic;
    rigidbody.velocity = ball.velocity;
    if below_playfield {
        level.lives = level.lives - 1;
        if level.lives == 0 {
            BallFate::Lost { spawn: None }
        } else {
            BallFate::Lost {
                spawn: Some(
                    SpawnBallEvent {
                        position: respawn.position,
                        linear_velocity: respawn.linear_velocity,
                        owning_paddle_ent: level.player_paddle_ent,
                    },
                ),
            }
        }
    } else {
        BallFate::Flying
    }
}

/// The sprite of a ball on the sprite sheet.
pub fn ball_sprite() -> (region: SpriteRegion)
    ensures
        region == (SpriteRegion { x: 64, y: 0, w: 32, h: 32 }),
{
    SpriteRegion { x: 64, y: 0, w: 32, h: 32 }
}

/// Where a ball is spawned: on the anchor of the paddle that owns it, or,
/// without an owner, where the request says.
pub fn spawn_position<P: Copy, V: Copy>(
    event: &SpawnBallEvent<P, V>,
    anchor: Option<P>,
) -> (position: P)
    requires
        event.owning_paddle_ent is Some ==> anchor is Some,
    ensures
        position == (if event.owning_paddle_ent is Some {
            anchor->0
        } else {
            event.position
        }),
{
    if event.owning_paddle_ent.is_some() {
        match anchor {
            Some(position) => position,
            None => event.position,
        }
    } else {
        event.position
    }
}

/// Makes the ball that `event` asks for: it starts with the velocity of
/// the request and rides the paddle that the request names, if any.
pub fn spawn_ball<L: Copy, P: Copy, V: Copy>(event: &SpawnBallEvent<P, V>, last_pos: L) -> (ball:
    BallComponent<L, V>)
    ensures
        ball.last_pos == last_pos,
        ball.velocity == event.linear_velocity,
        ball.holding_paddle_ent == event.owning_paddle_ent,
{
    BallComponent::new(last_pos, event.linear_velocity, event.owning_paddle_ent)
}

/// Makes the ball that `event` asks for on a paddle, as entity `ent`: the
/// ball rides the paddle, and the paddle takes hold of it.
pub fn spawn_held_ball<L: Copy, P: Copy, V: Copy, Q: Copy, W: Copy>(
    event: &SpawnBallEvent<P, V>,
    ent: Entity,
    last_pos: L,
    owner: &mut PlayerPaddleComponent<Q, W>,
) -> (ball: BallComponent<L, V>)
    requires
        event.owning_paddle_ent is Some,
    ensures
        ball.last_pos == last_pos,
        ball.velocity == event.linear_velocity,
        ball.holding_paddle_ent == event.owning_paddle_ent,
        final(owner).held_ball_ent == Some(ent),
        final(owner).held_ball_position == old(owner).held_ball_position,
        final(owner).level_width == old(owner).level_width,
        final(owner).movement_linear_velocity == old(owner).movement_linear_velocity,
{
    owner.hold(ent);
    spawn_ball(event, last_pos)
}

} // verus!
