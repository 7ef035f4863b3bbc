use cyberharvest::actor::{Actor, TickInput};
use cyberharvest::dive::{
    count_hits, dive_collision_check, map_path, read_map, tile_kind, DeepDiveState, Tile, TileKind,
};
use cyberharvest::kind::RoomKind;
use cyberharvest::progress::GameProgress;

fn tile(kind: TileKind, x: i32, y: i32) -> Tile {
    Tile { kind, x, y }
}

fn press(set: fn(&mut TickInput)) -> TickInput {
    let mut input = TickInput::idle();
    set(&mut input);
    input
}

#[test]
fn map_characters() {
    assert_eq!(tile_kind('#'), Some(TileKind::Wall));
    assert_eq!(tile_kind('~'), Some(TileKind::Lava));
    assert_eq!(tile_kind('@'), Some(TileKind::DataPort));
    assert_eq!(tile_kind('$'), Some(TileKind::Portal));
    assert_eq!(tile_kind(' '), None);
    assert_eq!(tile_kind('.'), None);
    assert_eq!(tile_kind('\r'), None);
}

#[test]
fn map_paths() {
    assert_eq!(map_path(0, 0), "dives/map0-0.txt");
    assert_eq!(map_path(1, 2), "dives/map1-2.txt");
    assert_eq!(map_path(10, 25), "dives/map10-25.txt");
}

#[test]
fn a_map_is_laid_out_around_the_origin() {
    let tiles = read_map("#~\n@$\n");
    assert_eq!(
        tiles,
        vec![
            tile(TileKind::Wall, -64, -64),
            tile(TileKind::Lava, 0, -64),
            tile(TileKind::DataPort, -64, 0),
            tile(TileKind::Portal, 0, 0),
        ]
    );
}

#[test]
fn open_floor_and_ragged_lines() {
    let tiles = read_map("###\n# .\n#\n\n  $");
    assert_eq!(
        tiles,
        vec![
            tile(TileKind::Wall, -128, -128),
            tile(TileKind::Wall, -64, -128),
            tile(TileKind::Wall, 0, -128),
            tile(TileKind::Wall, -128, -64),
            tile(TileKind::Wall, -128, 0),
            tile(TileKind::Portal, 0, 128),
        ]
    );
    assert!(read_map("").is_empty());
    assert!(read_map("...\n...").is_empty());
    assert_eq!(read_map("#"), vec![tile(TileKind::Wall, 0, 0)]);
}

#[test]
fn hits_are_counted_by_kind() {
    let tiles = vec![
        tile(TileKind::Wall, 64, 0),
        tile(TileKind::Lava, 64, 0),
        tile(TileKind::Wall, 100, 30),
        tile(TileKind::Wall, 128, 0),
    ];
    assert_eq!(count_hits(&tiles, TileKind::Wall, 64, 0), 2);
    assert_eq!(count_hits(&tiles, TileKind::Lava, 64, 0), 1);
    assert_eq!(count_hits(&tiles, TileKind::Portal, 64, 0), 0);
    assert_eq!(count_hits(&tiles, TileKind::Wall, 1, 0), 1);
    assert_eq!(count_hits(&tiles, TileKind::Wall, 0, 0), 0);
    assert_eq!(count_hits(&tiles, TileKind::Wall, 0, 64), 0);
}

#[test]
fn a_wall_blocks_and_a_data_port_still_counts() {
    let tiles = vec![tile(TileKind::DataPort, 64, 0), tile(TileKind::Wall, 64, 0)];
    let mut level = 0;
    let mut bank = 0;
    let res = dive_collision_check(64, 0, &tiles, &mut level, &mut bank);
    assert_eq!(res, (false, Some(RoomKind::DeepDive)));
    assert_eq!(level, 1);
    assert_eq!(bank, 0);
}

#[test]
fn collision_order_and_gates() {
    let mut level = 0;
    let mut bank = 0;
    let portal = vec![tile(TileKind::Portal, 0, 64)];
    assert_eq!(dive_collision_check(0, 64, &portal, &mut level, &mut bank), (true, Some(RoomKind::Pod)));
    assert_eq!((level, bank), (0, 1));
    assert_eq!(dive_collision_check(0, 64, &portal, &mut level, &mut bank), (true, Some(RoomKind::Pod)));
    assert_eq!((level, bank), (0, 1));
    assert_eq!(dive_collision_check(0, 0, &portal, &mut level, &mut bank), (true, None));

    let port = vec![tile(TileKind::DataPort, 0, 64)];
    for want in [1, 2, 2] {
        assert_eq!(
            dive_collision_check(0, 64, &port, &mut level, &mut bank),
            (true, Some(RoomKind::DeepDive))
        );
        assert_eq!(level, want);
    }

    let lava = vec![tile(TileKind::Lava, 0, 64)];
    assert_eq!(dive_collision_check(0, 64, &lava, &mut level, &mut bank), (true, Some(RoomKind::DeepDive)));
    assert_eq!((level, bank), (2, 1));

    let both = vec![tile(TileKind::Lava, 0, 64), tile(TileKind::Portal, 0, 64)];
    let mut bank = 0;
    assert_eq!(dive_collision_check(0, 64, &both, &mut level, &mut bank), (true, Some(RoomKind::DeepDive)));
    assert_eq!(bank, 1);

    let wall = vec![tile(TileKind::Wall, 0, 64)];
    assert_eq!(dive_collision_check(0, 64, &wall, &mut level, &mut bank), (false, None));
    assert_eq!(dive_collision_check(0, 0, &wall, &mut level, &mut bank), (true, None));
}

#[test]
fn two_data_ports_hit_at_once_raise_the_level_twice() {
    let tiles = vec![tile(TileKind::DataPort, 0, 0), tile(TileKind::DataPort, 32, 0)];
    let (mut level, mut bank) = (0, 0);
    dive_collision_check(16, 0, &tiles, &mut level, &mut bank);
    assert_eq!(level, 2);
    let (mut level, mut bank) = (1, 0);
    dive_collision_check(16, 0, &tiles, &mut level, &mut bank);
    assert_eq!(level, 2);
    let (mut level, mut bank) = (7, 3);
    dive_collision_check(16, 0, &tiles, &mut level, &mut bank);
    assert_eq!((level, bank), (7, 3));
}

#[test]
fn start_lays_out_the_level_and_keeps_its_number() {
    let mut dive = DeepDiveState::new();
    dive.level = 2;
    dive.player = Actor { x: 640, y: -64, velocity_x: 64, velocity_y: 0, flip_x: true };
    dive.start(GameProgress::GetSecondKey, "#\n");
    assert_eq!(dive.check_progress, GameProgress::GetSecondKey);
    assert_eq!(dive.level, 2);
    assert_eq!(dive.player, Actor::at(0));
    assert_eq!(dive.tiles, vec![tile(TileKind::Wall, -64, -64)]);
    assert_eq!(dive.close(), GameProgress::GetSecondKey);
    assert!(dive.tiles.is_empty());
}

#[test]
fn a_step_onto_lava_goes_through_and_asks_for_the_dive_again() {
    let mut dive = DeepDiveState::new();
    dive.start(GameProgress::GetFirstKey, "");
    dive.tiles = vec![tile(TileKind::Lava, 0, 64)];
    let mut bank = 0;
    let request = dive.run(&press(|i| i.forward_pressed = true), &mut bank);
    assert_eq!(request, Some(RoomKind::DeepDive));
    assert_eq!(dive.player, Actor { x: 0, y: 64, velocity_x: 0, velocity_y: 64, flip_x: false });
    assert_eq!((dive.level, bank), (0, 0));
}

#[test]
fn the_player_slides_until_a_wall_stops_it() {
    let mut dive = DeepDiveState::new();
    dive.start(GameProgress::GetFirstKey, "");
    dive.tiles = vec![tile(TileKind::Wall, 192, 0)];
    let mut bank = 0;
    assert_eq!(dive.run(&press(|i| i.right_pressed = true), &mut bank), None);
    assert_eq!((dive.player.x, dive.player.velocity_x), (64, 64));
    assert_eq!(dive.run(&press(|i| i.forward_pressed = true), &mut bank), None);
    assert_eq!((dive.player.x, dive.player.y, dive.player.velocity_x), (128, 0, 64));
    assert_eq!(dive.run(&TickInput::idle(), &mut bank), None);
    assert_eq!((dive.player.x, dive.player.velocity_x, dive.player.velocity_y), (128, 0, 0));
    assert_eq!(dive.run(&TickInput::idle(), &mut bank), None);
    assert_eq!(dive.player.x, 128);
    assert_eq!(dive.run(&press(|i| i.back_pressed = true), &mut bank), None);
    assert_eq!((dive.player.x, dive.player.y, dive.player.velocity_y), (128, -64, -64));
}

#[test]
fn keys_are_taken_in_a_fixed_order() {
    let all = |i: &mut TickInput| {
        i.left_pressed = true;
        i.forward_pressed = true;
        i.back_pressed = true;
        i.right_pressed = true;
    };
    let mut dive = DeepDiveState::new();
    let mut bank = 0;
    dive.run(&press(all), &mut bank);
    assert_eq!((dive.player.x, dive.player.y), (-64, 0));
    let mut dive = DeepDiveState::new();
    dive.run(
        &press(|i| {
            i.forward_pressed = true;
            i.back_pressed = true;
            i.right_pressed = true;
        }),
        &mut bank,
    );
    assert_eq!((dive.player.x, dive.player.y), (0, 64));
    let mut dive = DeepDiveState::new();
    dive.run(
        &press(|i| {
            i.back_pressed = true;
            i.right_pressed = true;
        }),
        &mut bank,
    );
    assert_eq!((dive.player.x, dive.player.y), (0, -64));
    let mut dive = DeepDiveState::new();
    dive.run(&press(|i| i.left_held = true), &mut bank);
    assert_eq!((dive.player.x, dive.player.y), (0, 0));
}

#[test]
fn a_player_at_rest_tests_no_tile() {
    let mut dive = DeepDiveState::new();
    dive.tiles = vec![tile(TileKind::Portal, 0, 0), tile(TileKind::DataPort, 0, 0)];
    let mut bank = 0;
    assert_eq!(dive.run(&TickInput::idle(), &mut bank), None);
    assert_eq!((dive.level, bank), (0, 0));
}

#[test]
fn the_portal_ends_the_dive_and_fills_the_bank_once() {
    let mut dive = DeepDiveState::new();
    dive.tiles = vec![tile(TileKind::Portal, -64, 0)];
    let mut bank = 0;
    assert_eq!(dive.run(&press(|i| i.left_pressed = true), &mut bank), Some(RoomKind::Pod));
    assert_eq!(bank, 1);
    assert_eq!(dive.player.x, -64);
    assert!(dive.player_in_world());
}

#[test]
fn the_debug_key_asks_for_the_workshop() {
    let mut dive = DeepDiveState::new();
    dive.tiles = vec![tile(TileKind::Lava, 0, 64)];
    let mut bank = 0;
    let request = dive.run(
        &press(|i| {
            i.forward_pressed = true;
            i.debug_pressed = true;
        }),
        &mut bank,
    );
    assert_eq!(request, Some(RoomKind::TechShop));
    assert_eq!(dive.player.y, 64);
    assert_eq!(dive.run(&press(|i| i.debug_pressed = true), &mut bank), Some(RoomKind::TechShop));
}

#[test]
fn the_world_has_a_limit() {
    let mut dive = DeepDiveState::new();
    assert!(dive.player_in_world());
    dive.player.x = 0x4000_0000;
    assert!(dive.player_in_world());
    dive.player.x = 0x4000_0001;
    assert!(!dive.player_in_world());
    dive.player.x = 0;
    dive.player.velocity_y = 65;
    assert!(!dive.player_in_world());
}
