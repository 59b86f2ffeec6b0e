//! Bricks: damage from ball contacts, the reward for breaking one, and the
//! end of a level.

use vstd::prelude::*;
use crate::collision::CollisionEvent;
use crate::entity::Entity;
use crate::idset::{bitset_add, bitset_contains, bitset_new, members, index_limit};
use crate::level::LevelState;
use crate::store::{find, holds, Entry};

verus! {

pub const BRICK_DEFAULT_HP: i32 = 2;

pub const BRICK_SPRITE_WIDTH: u32 = 20;

pub const BRICK_SPRITE_HEIGHT: u32 = 13;

/// The score for breaking a brick.
pub const BRICK_REWARD: u32 = 100;

/// The colour of a brick in a level layout.
#[derive(Copy, Clone, PartialEq, Eq, Structural, Debug)]
pub enum BrickType {
    Grey,
    Air,
    Green,
    Blue,
    Red,
    Purple,
}

/// An obstacle that balls bounce off and, unless it is indestructible,
/// wear down.
#[derive(Copy, Clone, PartialEq, Eq, Structural, Debug)]
pub struct BrickComponent {
    pub hp: i32,
    pub is_indestructible: bool,
}

impl BrickComponent {
    /// A brick with `hp` hit points; one made with none is indestructible.
    pub fn new(hp: i32) -> (brick: Self)
        ensures
            brick.hp == hp,
            brick.is_indestructible == (hp <= 0),
    {
        BrickComponent { hp, is_indestructible: hp <= 0 }
    }

    /// The brick after one hit: a destructible brick loses one hit point.
    pub open spec fn spec_hit(self) -> BrickComponent {
        if self.is_indestructible {
            self
        } else {
            BrickComponent { hp: (self.hp - 1) as i32, ..self }
        }
    }

    /// Whether one hit breaks the brick.
    pub open spec fn breaks(self) -> bool {
        !self.is_indestructible && self.hp - 1 <= 0
    }

    /// Whether the brick still has to be broken to clear the level.
    pub open spec fn stands(self) -> bool {
        !self.is_indestructible && self.hp > 0
    }

    /// Applies one hit and answers whether it broke the brick.
    pub fn take_hit(&mut self) -> (broken: bool)
        requires
            old(self).is_indestructible || old(self).hp > i32::MIN,
        ensures
            *final(self) == old(self).spec_hit(),
            broken == old(self).breaks(),
    {
        if self.is_indestructible {
            false
        } else {
            self.hp = self.hp - 1;
            self.hp <= 0
        }
    }
}

/// The brick that an event damages: the event names two entities, one a
/// brick and the other a ball, in either order.
pub open spec fn brick_struck<N, P, B>(
    event: CollisionEvent<N, P>,
    bricks: Seq<Entry<BrickComponent>>,
    balls: Seq<Entry<B>>,
) -> Option<Entity> {
    match (event.entity_a, event.entity_b) {
        (Some(a), Some(b)) => if holds(bricks, a) && holds(balls, b) {
            Some(a)
        } else if holds(bricks, b) && holds(balls, a) {
            Some(b)
        } else {
            None
        },
        _ => None,
    }
}

/// The indices of the bricks that the events of a tick damage. A brick is
/// in the set once, however many events name it.
pub open spec fn struck_ids<N, P, B>(
    events: Seq<CollisionEvent<N, P>>,
    bricks: Seq<Entry<BrickComponent>>,
    balls: Seq<Entry<B>>,
) -> Set<u32> {
    Set::new(
        |id: u32|
            exists|k: int|
                0 <= k < events.len() && (#[trigger] brick_struck(events[k], bricks, balls))
                    == Some(
                    Entity { id, generation: brick_struck(events[k], bricks, balls)->0.generation },
                ),
    )
}

/// The bricks after the tick: each brick whose index is struck takes one
/// hit, the others stay as they are.
pub open spec fn bricks_after(bricks: Seq<Entry<BrickComponent>>, struck: Set<u32>) -> Seq<
    Entry<BrickComponent>,
> {
    Seq::new(
        bricks.len(),
        |i: int|
            if struck.contains(bricks[i].entity.id) {
                Entry { entity: bricks[i].entity, component: bricks[i].component.spec_hit() }
            } else {
                bricks[i]
            },
    )
}

/// The bricks that the tick breaks, in the order of the store.
pub open spec fn broken_bricks(bricks: Seq<Entry<BrickComponent>>, struck: Set<u32>) -> Seq<Entity>
    decreases bricks.len(),
{
    if bricks.len() == 0 {
        Seq::empty()
    } else {
        let earlier = broken_bricks(bricks.drop_last(), struck);
        let last = bricks.last();
        if struck.contains(last.entity.id) && last.component.breaks() {
            earlier.push(last.entity)
        } else {
            earlier
        }
    }
}

/// No brick is left that has to be broken.
pub open spec fn level_cleared(bricks: Seq<Entry<BrickComponent>>) -> bool {
    forall|i: int| 0 <= i < bricks.len() ==> !(#[trigger] bricks[i]).component.stands()
}

/// What a tick did to the bricks.
#[derive(Debug)]
pub struct BrickTick {
    /// The bricks that broke; their entities are to be deleted.
    pub destroyed: Vec<Entity>,
    /// Whether the load of the next level was queued in this tick.
    pub advance_queued: bool,
}

/// Computes [`brick_struck`].
pub fn struck_brick<N: Copy, P: Copy, B>(
    event: &CollisionEvent<N, P>,
    bricks: &Vec<Entry<BrickComponent>>,
    balls: &Vec<Entry<B>>,
) -> (struck: Option<Entity>)
    ensures
        struck == brick_struck(*event, bricks@, balls@),
{
    match (event.entity_a, event.entity_b) {
        (Some(a), Some(b)) => {
            if find(bricks, a).is_some() && find(balls, b).is_some() {
                Some(a)
            } else if find(bricks, b).is_some() && find(balls, a).is_some() {
                Some(b)
            } else {
                None
            }
        },
        _ => None,
    }
}

/// One tick of the bricks. Every brick that a ball touched takes one hit,
/// however many contacts the tick logged against it; a brick whose hit
/// points run out is handed back for deletion and scores its reward; and
/// when no brick is left to break, the next level is asked for unless a
/// level load is pending already.
pub fn run_bricks<N: Copy, P: Copy, B>(
    events: &Vec<CollisionEvent<N, P>>,
    bricks: &mut Vec<Entry<BrickComponent>>,
    balls: &Vec<Entry<B>>,
    level: &mut LevelState,
) -> (tick: BrickTick)
    requires
        forall|i: int|
            0 <= i < old(bricks).len() ==> (#[trigger] old(bricks)[i]).entity.id < index_limit(),
        forall|i: int|
            0 <= i < old(bricks).len() ==> (#[trigger] old(bricks)[i]).component.is_indestructible
                || old(bricks)[i].component.hp > i32::MIN,
        old(level).score + BRICK_REWARD * old(bricks).len() <= u32::MAX,
        old(level).level < u32::MAX,
    ensures
        final(bricks)@ == bricks_after(old(bricks)@, struck_ids(events@, old(bricks)@, balls@)),
        tick.destroyed@ == broken_bricks(old(bricks)@, struck_ids(events@, old(bricks)@, balls@)),
        *final(level) == (LevelState {
            score: (old(level).score + BRICK_REWARD * tick.destroyed@.len()) as u32,
            ..*old(level)
        }).spec_request_advance(level_cleared(final(bricks)@)),
        tick.advance_queued == (level_cleared(final(bricks)@) && old(level).load_level_event
            is None),
{
    let ghost before = bricks@;
    let ghost start = *level;
    let mut bricks_hit_this_tick = bitset_new();
    let mut k: usize = 0;
    while k < events.len()
        invariant
            k <= events.len(),
            bricks@ == before,
            forall|i: int|
                0 <= i < before.len() ==> (#[trigger] before[i]).entity.id < index_limit(),
            members(bricks_hit_this_tick) == struck_ids(events@.take(k as int), before, balls@),
        decreases events.len() - k,
    {
        let ghost seen = events@.take(k as int);
        let ghost next = events@.take(k + 1);
        let struck = struck_brick(&events[k], bricks, balls);
        proof {
            assert(next == seen.push(events@[k as int]));
            lemma_struck_ids_push(seen, events@[k as int], before, balls@);
        }
        if let Some(brick) = struck {
            proof {
                let i = choose|i: int|
                    0 <= i < before.len() && (#[trigger] before[i]).entity == brick;
                assert(before[i].entity.id < index_limit());
            }
            bitset_add(&mut bricks_hit_this_tick, brick.id);
        }
        k = k + 1;
    }
    proof {
        assert(events@.take(events@.len() as int) == events@);
    }
    let ghost struck = struck_ids(events@, before, balls@);

    let mut destroyed: Vec<Entity> = Vec::new();
    let mut i: usize = 0;
    while i < bricks.len()
        invariant
            i <= bricks.len(),
            bricks.len() == before.len(),
            members(bricks_hit_this_tick) == struck,
            forall|j: int| 0 <= j < i ==> #[trigger] bricks[j] == bricks_after(before, struck)[j],
            forall|j: int| i <= j < before.len() ==> #[trigger] bricks[j] == before[j],
            forall|j: int|
                0 <= j < before.len() ==> (#[trigger] before[j]).component.is_indestructible
                    || before[j].component.hp > i32::MIN,
            destroyed@ == broken_bricks(before.take(i as int), struck),
            destroyed@.len() <= i,
            level.score == start.score + BRICK_REWARD * destroyed@.len(),
            start.score + BRICK_REWARD * before.len() <= u32::MAX,
            *level == (LevelState { score: level.score, ..start }),
        decreases bricks.len() - i,
    {
        proof {
            assert(before.take(i + 1).drop_last() == before.take(i as int));
        }
        let mut entry = bricks[i];
        if bitset_contains(&bricks_hit_this_tick, entry.entity.id) {
            let broken = entry.component.take_hit();
            bricks.set(i, entry);
            if broken {
                destroyed.push(entry.entity);
                level.score = level.score + BRICK_REWARD;
            }
        }
        i = i + 1;
    }
    proof {
        assert(before.take(before.len() as int) == before);
        assert(bricks@ =~= bricks_after(before, struck));
    }

    let mut cleared = true;
    let mut j: usize = 0;
    while j < bricks.len()
        invariant
            j <= bricks.len(),
            cleared == level_cleared(bricks@.take(j as int)),
        decreases bricks.len() - j,
    {
        let ghost seen = bricks@.take(j as int);
        let ghost next = bricks@.take(j + 1);
        proof {
            assert(forall|m: int| 0 <= m < seen.len() ==> next[m] == seen[m]);
            assert(next[j as int] == bricks@[j as int]);
        }
        let brick = bricks[j].component;
        if !brick.is_indestructible && brick.hp > 0 {
            cleared = false;
        }
        j = j + 1;
    }
    proof {
        assert(bricks@.take(bricks@.len() as int) == bricks@);
    }
    let advance_queued = level.request_advance(cleared);
    BrickTick { destroyed, advance_queued }
}

/// One more event adds the index of the brick it damages, if it damages
/// one, and nothing else.
pub proof fn lemma_struck_ids_push<N, P, B>(
    events: Seq<CollisionEvent<N, P>>,
    event: CollisionEvent<N, P>,
    bricks: Seq<Entry<BrickComponent>>,
    balls: Seq<Entry<B>>,
)
    ensures
        struck_ids(events.push(event), bricks, balls) == (match brick_struck(event, bricks, balls) {
            Some(brick) => struck_ids(events, bricks, balls).insert(brick.id),
            None => struck_ids(events, bricks, balls),
        }),
{
    let longer = events.push(event);
    let expected = match brick_struck(event, bricks, balls) {
        Some(brick) => struck_ids(events, bricks, balls).insert(brick.id),
        None => struck_ids(events, bricks, balls),
    };
    assert forall|id: u32| struck_ids(longer, bricks, balls).contains(id) implies expected.contains(
        id,
    ) by {
        let k = choose|k: int|
            0 <= k < longer.len() && (#[trigger] brick_struck(longer[k], bricks, balls)) == Some(
                Entity { id, generation: brick_struck(longer[k], bricks, balls)->0.generation },
            );
        if k < events.len() {
            assert(longer[k] == events[k]);
        }
    }
    assert forall|id: u32| expected.contains(id) implies struck_ids(longer, bricks, balls).contains(
        id,
    ) by {
        if struck_ids(events, bricks, balls).contains(id) {
            let k = choose|k: int|
                0 <= k < events.len() && (#[trigger] brick_struck(events[k], bricks, balls))
                    == Some(
                    Entity { id, generation: brick_struck(events[k], bricks, balls)->0.generation },
                );
            assert(longer[k] == events[k]);
        } else {
            assert(longer[events.len() as int] == event);
        }
    }
    assert(struck_ids(longer, bricks, balls) =~= expected);
}

/// A brick with one hit point left that is struck in a tick, by one
/// contact or by many, breaks once: it is handed back once, and with it
/// the tick scores one reward.
pub proof fn lemma_reward_once<N, P, B>(
    events: Seq<CollisionEvent<N, P>>,
    brick: Entry<BrickComponent>,
    balls: Seq<Entry<B>>,
    k: int,
)
    requires
        0 <= k < events.len(),
        brick_struck(events[k], seq![brick], balls) == Some(brick.entity),
        !brick.component.is_indestructible,
        brick.component.hp == 1,
    ensures
        broken_bricks(seq![brick], struck_ids(events, seq![brick], balls)) == seq![brick.entity],
        bricks_after(seq![brick], struck_ids(events, seq![brick], balls))[0].component.hp == 0,
{
    let bricks = seq![brick];
    let struck = struck_ids(events, bricks, balls);
    assert(struck.contains(brick.entity.id));
    assert(bricks.drop_last() =~= Seq::<Entry<BrickComponent>>::empty());
    assert(broken_bricks(bricks.drop_last(), struck) == Seq::<Entity>::empty());
    assert(bricks.last() == brick);
    assert(broken_bricks(bricks, struck) =~= seq![brick.entity]);
}

} // verus!
