//! The state of a run: score, lives and the level being played.

use vstd::prelude::*;
use std::collections::HashMap;
use crate::brick::{BrickType, BRICK_DEFAULT_HP, BRICK_SPRITE_HEIGHT, BRICK_SPRITE_WIDTH};
use crate::entity::Entity;

verus! {

broadcast use vstd::std_specs::hash::group_hash_axioms;

/// The number of a level.
pub type LevelAssetId = u32;

/// The lives a player starts a level with.
pub const PLAYER_DEFAULT_BALLS: u32 = 99;

/// A request to load a level.
#[derive(Copy, Clone, PartialEq, Eq, Structural, Debug)]
pub struct LoadLevelEvent {
    pub level: LevelAssetId,
}

/// The state of the run.
#[derive(Copy, Clone, PartialEq, Eq, Structural, Debug)]
pub struct LevelState {
    pub level: LevelAssetId,
    pub score: u32,
    pub lives: u32,
    /// The paddle that new balls are spawned on.
    pub player_paddle_ent: Option<Entity>,
    /// The level load that is pending, if one is.
    pub load_level_event: Option<LoadLevelEvent>,
    pub level_width: u32,
    pub level_height: u32,
}

impl LevelState {
    /// The state at the start of the game, with a first level load
    /// pending.
    pub fn new(level_width: u32, level_height: u32, load_level_event: LoadLevelEvent) -> (state:
        LevelState)
        ensures
            state == (LevelState {
                level: 0,
                score: 0,
                lives: 3,
                player_paddle_ent: None,
                load_level_event: Some(load_level_event),
                level_width,
                level_height,
            }),
    {
        LevelState {
            level: 0,
            score: 0,
            lives: 3,
            player_paddle_ent: None,
            load_level_event: Some(load_level_event),
            level_width,
            level_height,
        }
    }

    /// Starts `level` afresh: no score, all lives, the given paddle, and
    /// no level load pending. The playfield keeps its size.
    pub fn setup(&mut self, level: LevelAssetId, player_paddle_ent: Entity)
        ensures
            *final(self) == (LevelState {
                level,
                score: 0,
                lives: PLAYER_DEFAULT_BALLS,
                player_paddle_ent: Some(player_paddle_ent),
                load_level_event: None,
                level_width: old(self).level_width,
                level_height: old(self).level_height,
            }),
    {
        self.level = level;
        self.score = 0;
        self.lives = PLAYER_DEFAULT_BALLS;
        self.player_paddle_ent = Some(player_paddle_ent);
        self.load_level_event = None;
    }

    /// The state after a level was found cleared or not: a cleared level
    /// with no load pending asks for the next level; anything else leaves
    /// the state as it is.
    pub open spec fn spec_request_advance(self, cleared: bool) -> LevelState {
        if cleared && self.load_level_event is None {
            LevelState {
                load_level_event: Some(LoadLevelEvent { level: (self.level + 1) as u32 }),
                ..self
            }
        } else {
            self
        }
    }

    /// Queues the load of the next level if the level is cleared and no
    /// load is pending; answers whether it did.
    pub fn request_advance(&mut self, cleared: bool) -> (queued: bool)
        requires
            old(self).level < u32::MAX,
        ensures
            *final(self) == old(self).spec_request_advance(cleared),
            queued == (cleared && old(self).load_level_event is None),
    {
        if cleared && self.load_level_event.is_none() {
            self.load_level_event = Some(LoadLevelEvent { level: self.level + 1 });
            true
        } else {
            false
        }
    }

    /// While a level load is pending, finding the level cleared again
    /// changes nothing: one request is queued, and only one.
    pub proof fn lemma_advance_queued_once(self, again: bool)
        ensures
            self.spec_request_advance(true).load_level_event is Some,
            self.spec_request_advance(true).spec_request_advance(again)
                == self.spec_request_advance(true),
    {
    }
}

/// How far below the top of the playfield the first row of bricks lies.
pub const LEVEL_BRICKS_Y_OFFSET: u32 = 32;

/// The number of brick cells in a row, and of rows, of a level.
pub const LEVEL_BRICKS_GRID_SIZE: u32 = 16;

/// The number of brick cells of a level.
pub const LEVEL_BRICKS_CELLS: usize = 256;

/// The layout of a level: one brick type for each cell, row by row.
#[derive(Debug)]
pub struct LevelAsset {
    pub id: LevelAssetId,
    pub bricks: Vec<BrickType>,
}

/// Whether `c` is white space as Unicode defines it.
pub open spec fn spec_is_whitespace(c: char) -> bool {
    let u = c as u32;
    ||| 0x09 <= u <= 0x0d
    ||| u == 0x20
    ||| u == 0x85
    ||| u == 0xa0
    ||| u == 0x1680
    ||| 0x2000 <= u <= 0x200a
    ||| u == 0x2028
    ||| u == 0x2029
    ||| u == 0x202f
    ||| u == 0x205f
    ||| u == 0x3000
}

/// Computes [`spec_is_whitespace`].
pub fn is_whitespace(c: char) -> (white: bool)
    ensures
        white == spec_is_whitespace(c),
{
    let u: u32 = c as u32;
    (0x09 <= u && u <= 0x0d) || u == 0x20 || u == 0x85 || u == 0xa0 || u == 0x1680 || (0x2000 <= u
        && u <= 0x200a) || u == 0x2028 || u == 0x2029 || u == 0x202f || u == 0x205f || u == 0x3000
}

/// The brick that a character of a level file stands for: the digits
/// from 0 to 4 name the five kinds of brick, anything else an empty cell.
pub open spec fn spec_brick_type_of(c: char) -> BrickType {
    if c == '0' {
        BrickType::Grey
    } else if c == '1' {
        BrickType::Green
    } else if c == '2' {
        BrickType::Blue
    } else if c == '3' {
        BrickType::Red
    } else if c == '4' {
        BrickType::Purple
    } else {
        BrickType::Air
    }
}

/// Computes [`spec_brick_type_of`].
pub fn brick_type_of(c: char) -> (brick: BrickType)
    ensures
        brick == spec_brick_type_of(c),
{
    if c == '0' {
        BrickType::Grey
    } else if c == '1' {
        BrickType::Green
    } else if c == '2' {
        BrickType::Blue
    } else if c == '3' {
        BrickType::Red
    } else if c == '4' {
        BrickType::Purple
    } else {
        BrickType::Air
    }
}

/// The cells that the text of a level file describes: one for each
/// character that is not white space, in the order of the text.
pub open spec fn spec_parse_level(text: Seq<char>) -> Seq<BrickType>
    decreases text.len(),
{
    if text.len() == 0 {
        Seq::empty()
    } else if spec_is_whitespace(text.last()) {
        spec_parse_level(text.drop_last())
    } else {
        spec_parse_level(text.drop_last()).push(spec_brick_type_of(text.last()))
    }
}

/// Reads the cells of a level from the text of its file.
pub fn parse_level(text: &Vec<char>) -> (bricks: Vec<BrickType>)
    ensures
        bricks@ == spec_parse_level(text@),
{
    let mut bricks: Vec<BrickType> = Vec::new();
    let mut i: usize = 0;
    while i < text.len()
        invariant
            i <= text.len(),
            bricks@ == spec_parse_level(text@.take(i as int)),
        decreases text.len() - i,
    {
        proof {
            assert(text@.take(i + 1).drop_last() == text@.take(i as int));
        }
        let c = text[i];
        if !is_whitespace(c) {
            bricks.push(brick_type_of(c));
        }
        i = i + 1;
    }
    proof {
        assert(text@.take(text@.len() as int) == text@);
    }
    bricks
}

/// The hit points that a brick of the given kind starts with.
pub open spec fn spec_brick_hp(brick: BrickType) -> i32 {
    match brick {
        BrickType::Grey => 0,
        BrickType::Green => 1,
        BrickType::Blue => 2,
        BrickType::Red => 3,
        BrickType::Purple => 4,
        BrickType::Air => BRICK_DEFAULT_HP,
    }
}

/// Computes [`spec_brick_hp`].
pub fn brick_hp(brick: BrickType) -> (hp: i32)
    ensures
        hp == spec_brick_hp(brick),
{
    match brick {
        BrickType::Grey => 0,
        BrickType::Green => 1,
        BrickType::Blue => 2,
        BrickType::Red => 3,
        BrickType::Purple => 4,
        BrickType::Air => BRICK_DEFAULT_HP,
    }
}

/// A brick to be put into the playfield.
#[derive(Copy, Clone, PartialEq, Eq, Structural, Debug)]
pub struct BrickPlacement {
    pub column: u32,
    pub row: u32,
    /// The left edge of the brick, in pixels.
    pub x: u32,
    /// The top edge of the brick, in pixels.
    pub y: u32,
    pub hp: i32,
}

/// The brick of the cell with the given number, counted row by row.
pub open spec fn placement_at(bricks: Seq<BrickType>, cell: int) -> BrickPlacement {
    BrickPlacement {
        column: (cell % 16) as u32,
        row: (cell / 16) as u32,
        x: ((cell % 16) * BRICK_SPRITE_WIDTH) as u32,
        y: (LEVEL_BRICKS_Y_OFFSET + (cell / 16) * BRICK_SPRITE_HEIGHT) as u32,
        hp: spec_brick_hp(bricks[cell]),
    }
}

/// The bricks of the first `cells` cells: every cell that is not empty,
/// row by row.
pub open spec fn placements(bricks: Seq<BrickType>, cells: nat) -> Seq<BrickPlacement>
    decreases cells,
{
    if cells == 0 {
        Seq::empty()
    } else if bricks[cells - 1] == BrickType::Air {
        placements(bricks, (cells - 1) as nat)
    } else {
        placements(bricks, (cells - 1) as nat).push(placement_at(bricks, cells - 1))
    }
}

/// Lays out the bricks of a level on its grid.
pub fn layout_bricks(level: &LevelAsset) -> (bricks: Vec<BrickPlacement>)
    requires
        level.bricks.len() >= LEVEL_BRICKS_CELLS,
    ensures
        bricks@ == placements(level.bricks@, LEVEL_BRICKS_CELLS as nat),
{
    let mut bricks: Vec<BrickPlacement> = Vec::new();
    let mut cell: usize = 0;
    while cell < LEVEL_BRICKS_CELLS
        invariant
            cell <= LEVEL_BRICKS_CELLS,
            level.bricks.len() >= LEVEL_BRICKS_CELLS,
            bricks@ == placements(level.bricks@, cell as nat),
        decreases LEVEL_BRICKS_CELLS - cell,
    {
        let brick_type = level.bricks[cell];
        if brick_type != BrickType::Air {
            let column: u32 = (cell % 16) as u32;
            let row: u32 = (cell / 16) as u32;
            bricks.push(
                BrickPlacement {
                    column,
                    row,
                    x: column * BRICK_SPRITE_WIDTH,
                    y: LEVEL_BRICKS_Y_OFFSET + row * BRICK_SPRITE_HEIGHT,
                    hp: brick_hp(brick_type),
                },
            );
        }
        cell = cell + 1;
    }
    bricks
}

/// The levels that were imported, by their number.
pub struct LevelAssetDb {
    levels: HashMap<u32, LevelAsset>,
}

impl LevelAssetDb {
    /// The cells of each imported level.
    pub closed spec fn view(&self) -> Map<LevelAssetId, Seq<BrickType>> {
        Map::new(|id: u32| self.levels@.contains_key(id), |id: u32| self.levels@[id].bricks@)
    }

    /// Every level is filed under its own number.
    pub closed spec fn wf(&self) -> bool {
        forall|id: u32| #[trigger] self.levels@.contains_key(id) ==> self.levels@[id].id == id
    }

    /// A database without levels.
    pub fn new() -> (db: Self)
        ensures
            db.wf(),
            db@ == Map::<LevelAssetId, Seq<BrickType>>::empty(),
    {
        LevelAssetDb { levels: HashMap::new() }
    }

    /// Files the level read from the text of a level file under `id`, in
    /// place of any level that was filed there.
    pub fn import(&mut self, id: LevelAssetId, text: &Vec<char>)
        requires
            old(self).wf(),
        ensures
            final(self).wf(),
            final(self)@ == old(self)@.insert(id, spec_parse_level(text@)),
    {
        let level = LevelAsset { id, bricks: parse_level(text) };
        self.levels.insert(id, level);
    }

    /// A copy of the level with the given number.
    pub fn level(&self, id: LevelAssetId) -> (level: Option<LevelAsset>)
        requires
            self.wf(),
        ensures
            level is Some <==> self@.contains_key(id),
            level matches Some(asset) ==> asset.id == id && asset.bricks@ == self@[id],
    {
        match self.levels.get(&id) {
            Some(asset) => {
                let mut bricks: Vec<BrickType> = Vec::new();
                let mut i: usize = 0;
                while i < asset.bricks.len()
                    invariant
                        i <= asset.bricks.len(),
                        bricks@ == asset.bricks@.take(i as int),
                    decreases asset.bricks.len() - i,
                {
                    bricks.push(asset.bricks[i]);
                    proof {
                        assert(asset.bricks@.take(i + 1) == asset.bricks@.take(i as int).push(
                            asset.bricks@[i as int],
                        ));
                    }
                    i = i + 1;
                }
                Some(LevelAsset { id: asset.id, bricks })
            },
            None => None,
        }
    }
}

} // verus!
