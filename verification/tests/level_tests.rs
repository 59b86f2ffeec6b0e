use brickbonker::brick::BrickType;
use brickbonker::entity::Entity;
use brickbonker::level::{
    brick_hp, brick_type_of, is_whitespace, layout_bricks, parse_level, BrickPlacement, LevelAsset,
    LevelAssetDb, LevelState, LoadLevelEvent, PLAYER_DEFAULT_BALLS,
};

fn chars(text: &str) -> Vec<char> {
    text.chars().collect()
}

#[test]
fn game_starts_with_a_level_load_pending() {
    let level = LevelState::new(320, 240, LoadLevelEvent { level: 1 });
    assert_eq!(level.level, 0);
    assert_eq!(level.score, 0);
    assert_eq!(level.lives, 3);
    assert_eq!(level.player_paddle_ent, None);
    assert_eq!(level.load_level_event, Some(LoadLevelEvent { level: 1 }));
    assert_eq!((level.level_width, level.level_height), (320, 240));
}

#[test]
fn setup_resets_the_run() {
    let mut level = LevelState::new(320, 240, LoadLevelEvent { level: 1 });
    level.score = 700;
    level.setup(1, Entity { id: 4, generation: 1 });
    assert_eq!(level.level, 1);
    assert_eq!(level.score, 0);
    assert_eq!(level.lives, PLAYER_DEFAULT_BALLS);
    assert_eq!(level.lives, 99);
    assert_eq!(level.player_paddle_ent, Some(Entity { id: 4, generation: 1 }));
    assert_eq!(level.load_level_event, None);
    assert_eq!((level.level_width, level.level_height), (320, 240));
}

#[test]
fn cleared_level_asks_for_the_next_one_once() {
    let mut level = LevelState::new(320, 240, LoadLevelEvent { level: 1 });
    level.setup(1, Entity { id: 4, generation: 1 });
    assert!(!level.request_advance(false));
    assert_eq!(level.load_level_event, None);
    assert!(level.request_advance(true));
    assert_eq!(level.load_level_event, Some(LoadLevelEvent { level: 2 }));
    level.level = 7;
    assert!(!level.request_advance(true));
    assert_eq!(level.load_level_event, Some(LoadLevelEvent { level: 2 }));
}

#[test]
fn digits_name_bricks() {
    assert_eq!(brick_type_of('0'), BrickType::Grey);
    assert_eq!(brick_type_of('1'), BrickType::Green);
    assert_eq!(brick_type_of('2'), BrickType::Blue);
    assert_eq!(brick_type_of('3'), BrickType::Red);
    assert_eq!(brick_type_of('4'), BrickType::Purple);
    assert_eq!(brick_type_of('5'), BrickType::Air);
    assert_eq!(brick_type_of('.'), BrickType::Air);
}

#[test]
fn white_space_is_what_the_standard_library_says() {
    let mut c = 0u32;
    while c <= 0x3100 {
        if let Some(ch) = char::from_u32(c) {
            assert_eq!(is_whitespace(ch), ch.is_whitespace(), "U+{:04X}", c);
        }
        c += 1;
    }
    assert!(!is_whitespace('\u{10FFFF}'));
}

#[test]
fn level_text_is_read_without_white_space() {
    let bricks = parse_level(&chars("01 2\n\t3.\r\n4x\u{a0}"));
    assert_eq!(
        bricks,
        vec![
            BrickType::Grey,
            BrickType::Green,
            BrickType::Blue,
            BrickType::Red,
            BrickType::Air,
            BrickType::Purple,
            BrickType::Air,
        ]
    );
    assert!(parse_level(&chars(" \n ")).is_empty());
}

#[test]
fn brick_kinds_have_their_hit_points() {
    assert_eq!(brick_hp(BrickType::Grey), 0);
    assert_eq!(brick_hp(BrickType::Green), 1);
    assert_eq!(brick_hp(BrickType::Blue), 2);
    assert_eq!(brick_hp(BrickType::Red), 3);
    assert_eq!(brick_hp(BrickType::Purple), 4);
    assert_eq!(brick_hp(BrickType::Air), 2);
}

#[test]
fn bricks_are_laid_out_row_by_row() {
    let mut cells = vec![BrickType::Air; 256];
    cells[0] = BrickType::Grey;
    cells[3] = BrickType::Blue;
    cells[16] = BrickType::Green;
    cells[255] = BrickType::Purple;
    let placed = layout_bricks(&LevelAsset { id: 1, bricks: cells });
    assert_eq!(
        placed,
        vec![
            BrickPlacement { column: 0, row: 0, x: 0, y: 32, hp: 0 },
            BrickPlacement { column: 3, row: 0, x: 60, y: 32, hp: 2 },
            BrickPlacement { column: 0, row: 1, x: 0, y: 45, hp: 1 },
            BrickPlacement { column: 15, row: 15, x: 300, y: 227, hp: 4 },
        ]
    );
}

#[test]
fn cells_beyond_the_grid_are_ignored() {
    let mut cells = vec![BrickType::Air; 300];
    cells[256] = BrickType::Red;
    assert!(layout_bricks(&LevelAsset { id: 1, bricks: cells }).is_empty());
}

#[test]
fn imported_level_is_found_by_its_number() {
    let mut db = LevelAssetDb::new();
    assert!(db.level(1).is_none());
    db.import(1, &chars("12\n34"));
    db.import(2, &chars("0"));
    let one = db.level(1).unwrap();
    assert_eq!(one.id, 1);
    assert_eq!(one.bricks, vec![BrickType::Green, BrickType::Blue, BrickType::Red, BrickType::Purple]);
    assert_eq!(db.level(2).unwrap().bricks, vec![BrickType::Grey]);
    assert!(db.level(3).is_none());
    db.import(1, &chars("4"));
    assert_eq!(db.level(1).unwrap().bricks, vec![BrickType::Purple]);
}
