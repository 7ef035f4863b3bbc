use cyberharvest::actor::{Actor, TickInput};
use cyberharvest::dive::{Tile, TileKind};
use cyberharvest::game::{spawn_x, Game};
use cyberharvest::kind::RoomKind;
use cyberharvest::progress::GameProgress;

const ROOMS: [RoomKind; 12] = [
    RoomKind::Intro,
    RoomKind::End,
    RoomKind::Helionix,
    RoomKind::Fusiogenic,
    RoomKind::TechShop,
    RoomKind::Alleyway,
    RoomKind::Cyberway,
    RoomKind::PartsShop,
    RoomKind::Cafe,
    RoomKind::Pod,
    RoomKind::Alleyway2,
    RoomKind::DeepDive,
];

fn press(set: fn(&mut TickInput)) -> TickInput {
    let mut input = TickInput::idle();
    set(&mut input);
    input
}

/// A game whose current room is `room`, opened in stage `progress`.
fn game_in(room: RoomKind, progress: GameProgress) -> Game {
    let mut game = Game::new();
    game.current_state = room;
    game.next_state = room;
    game.states.game_progress = progress;
    game.start_initial_state("first\nsecond\n");
    game
}

#[test]
fn a_new_game_begins_in_the_intro() {
    let game = Game::new();
    assert_eq!(game.current_state, RoomKind::Intro);
    assert_eq!(game.next_state, RoomKind::Intro);
    assert!(!game.next_changed);
    assert_eq!(game.deep_dive_data_bank, 0);
    assert_eq!(game.states.game_progress, GameProgress::Start);
    assert_eq!(game.states.tech_shop_state.kind, RoomKind::TechShop);
    assert_eq!(game.states.alleyway2_state.kind, RoomKind::Alleyway2);
    assert_eq!(game.initial_resource(), Some("texts/intro.txt".to_string()));
    assert_eq!(game.transition_wanted(), None);
    assert_eq!(game.transition_resource_wanted(), None);
}

#[test]
fn the_table_of_ways() {
    let ways = [
        (RoomKind::Intro, RoomKind::TechShop, 320),
        (RoomKind::TechShop, RoomKind::Alleyway, 210),
        (RoomKind::Alleyway, RoomKind::TechShop, 320),
        (RoomKind::Alleyway, RoomKind::Cyberway, -580),
        (RoomKind::Cyberway, RoomKind::Alleyway, 510),
        (RoomKind::Cyberway, RoomKind::Cafe, 350),
        (RoomKind::Cyberway, RoomKind::Alleyway2, -450),
        (RoomKind::Cyberway, RoomKind::PartsShop, -200),
        (RoomKind::PartsShop, RoomKind::Cyberway, -350),
        (RoomKind::Alleyway2, RoomKind::Cyberway, 520),
        (RoomKind::Cafe, RoomKind::Cyberway, 430),
        (RoomKind::Cafe, RoomKind::Pod, -200),
        (RoomKind::Pod, RoomKind::Helionix, 0),
        (RoomKind::Pod, RoomKind::Fusiogenic, 0),
        (RoomKind::Pod, RoomKind::Cafe, -500),
        (RoomKind::Helionix, RoomKind::DeepDive, 0),
        (RoomKind::Fusiogenic, RoomKind::DeepDive, 0),
        (RoomKind::DeepDive, RoomKind::DeepDive, 0),
        (RoomKind::DeepDive, RoomKind::Pod, -200),
    ];
    let mut known = 0;
    for from in ROOMS {
        for to in ROOMS {
            let listed = ways.iter().find(|w| w.0 == from && w.1 == to).map(|w| w.2);
            assert_eq!(spawn_x(from, to), listed);
            if listed.is_some() {
                known += 1;
            }
        }
    }
    assert_eq!(known, 19);
}

#[test]
fn the_intro_leads_to_the_workshop() {
    let mut game = Game::new();
    game.start_initial_state("Once.\n");
    assert_eq!(game.states.intro_state.story_texts.len(), 2);
    game.run_current_game_state(&TickInput::idle(), "");
    assert_eq!(game.states.intro_state.current_text, "O");
    assert!(!game.next_changed);
    assert_eq!(game.manage_state_changes(""), None);

    game.run_current_game_state(&press(|i| i.interact_pressed = true), "");
    assert!(game.next_changed);
    assert_eq!(game.next_state, RoomKind::TechShop);
    assert_eq!(game.current_state, RoomKind::Intro);
    assert_eq!(game.transition_wanted(), Some(RoomKind::TechShop));
    assert_eq!(game.transition_resource_wanted(), None);

    assert_eq!(game.manage_state_changes(""), Some(RoomKind::TechShop));
    assert_eq!(game.current_state, RoomKind::TechShop);
    assert!(!game.next_changed);
    assert!(game.states.intro_state.story_texts.is_empty());
    assert_eq!(game.states.tech_shop_state.player.x, 320);
    assert_eq!(game.states.tech_shop_state.current_msg, "Location: Tech Workshop.");
    assert_eq!(game.states.game_progress, GameProgress::Start);
}

#[test]
fn from_the_workshop_door_to_the_alleyway() {
    let mut game = game_in(RoomKind::TechShop, GameProgress::Start);
    assert_eq!(game.states.tech_shop_state.player.x, 320);
    game.states.tech_shop_state.player.x = 351;
    game.states.tech_shop_state.has_moved = true;
    game.run_current_game_state(&press(|i| i.forward_pressed = true), "");
    assert_eq!(game.next_state, RoomKind::Alleyway);
    assert!(game.next_changed);
    assert_eq!(game.current_state, RoomKind::TechShop);

    assert_eq!(game.manage_state_changes(""), Some(RoomKind::Alleyway));
    assert_eq!(game.current_state, RoomKind::Alleyway);
    assert_eq!(game.states.game_progress, GameProgress::Start);
    assert_eq!(game.states.alleyway_state.player.x, 210);
    assert_eq!(game.states.alleyway_state.check_progress, GameProgress::Start);
    assert_eq!(game.states.alleyway_state.npcs.len(), 1);
    assert!(game.states.tech_shop_state.npcs.is_empty());
}

#[test]
fn walking_from_the_spawn_to_the_door() {
    let mut game = game_in(RoomKind::TechShop, GameProgress::Start);
    let right = press(|i| i.right_held = true);
    for step in 1..=6 {
        game.run_current_game_state(&right, "");
        assert_eq!(game.states.tech_shop_state.player.x, 320 + 6 * step);
        assert!(!game.next_changed);
    }
    game.run_current_game_state(&TickInput::idle(), "");
    assert_eq!(game.states.tech_shop_state.current_msg, "Press [W] to enter the alleyway.");
    game.run_current_game_state(&press(|i| i.forward_pressed = true), "");
    assert_eq!(game.transition_wanted(), Some(RoomKind::Alleyway));
}

#[test]
fn a_request_without_a_way_is_dropped() {
    let mut game = game_in(RoomKind::TechShop, GameProgress::Start);
    game.states.tech_shop_state.player.x = 100;
    game.request(RoomKind::Cafe);
    assert_eq!(game.transition_wanted(), None);
    assert_eq!(game.manage_state_changes(""), None);
    assert_eq!(game.current_state, RoomKind::TechShop);
    assert_eq!(game.next_state, RoomKind::Cafe);
    assert!(!game.next_changed);
    assert_eq!(game.states.tech_shop_state.player.x, 100);
    assert!(!game.states.tech_shop_state.npcs.is_empty());

    game.request(RoomKind::TechShop);
    assert_eq!(game.manage_state_changes(""), None);
    assert_eq!(game.states.tech_shop_state.player.x, 100);
}

#[test]
fn a_request_is_looked_at_once() {
    let mut game = game_in(RoomKind::TechShop, GameProgress::Start);
    game.request(RoomKind::Alleyway);
    assert_eq!(game.manage_state_changes(""), Some(RoomKind::Alleyway));
    game.states.alleyway_state.player.x = 77;
    assert_eq!(game.next_state, RoomKind::Alleyway);
    assert_eq!(game.manage_state_changes(""), None);
    assert_eq!(game.states.alleyway_state.player.x, 77);

    game.next_state = RoomKind::TechShop;
    assert_eq!(game.manage_state_changes(""), None);
    assert_eq!(game.current_state, RoomKind::Alleyway);
    game.request(RoomKind::TechShop);
    assert_eq!(game.manage_state_changes(""), Some(RoomKind::TechShop));
}

#[test]
fn the_alleyway_raises_the_story_when_it_is_left() {
    let mut game = game_in(RoomKind::Alleyway, GameProgress::Start);
    game.states.alleyway_state.dialog_state = 1;
    game.request(RoomKind::Cyberway);
    assert_eq!(game.closing_progress(), GameProgress::TalkToFigure);
    assert_eq!(game.manage_state_changes(""), Some(RoomKind::Cyberway));
    assert_eq!(game.states.game_progress, GameProgress::TalkToFigure);
    assert_eq!(game.states.cyberway_state.check_progress, GameProgress::TalkToFigure);
    assert_eq!(game.states.cyberway_state.player.x, -580);

    game.request(RoomKind::Alleyway);
    assert_eq!(game.manage_state_changes(""), Some(RoomKind::Alleyway));
    assert_eq!(game.states.alleyway_state.player.x, 510);
    assert!(game.states.alleyway_state.npcs.is_empty());
    game.request(RoomKind::TechShop);
    assert_eq!(game.manage_state_changes(""), Some(RoomKind::TechShop));
    assert_eq!(game.states.game_progress, GameProgress::TalkToFigure);
}

#[test]
fn the_way_around_the_city() {
    let mut game = game_in(RoomKind::TechShop, GameProgress::TalkToFigure);
    let route = [
        (RoomKind::Alleyway, 210),
        (RoomKind::Cyberway, -580),
        (RoomKind::PartsShop, -200),
        (RoomKind::Cyberway, -350),
        (RoomKind::Alleyway2, -450),
        (RoomKind::Cyberway, 520),
        (RoomKind::Cafe, 350),
        (RoomKind::Cyberway, 430),
        (RoomKind::Cafe, 350),
        (RoomKind::Pod, -200),
        (RoomKind::Cafe, -500),
    ];
    for (room, x) in route {
        game.request(room);
        assert_eq!(game.transition_resource_wanted(), None);
        assert_eq!(game.manage_state_changes(""), Some(room));
        assert_eq!(game.current_state, room);
        let state = match room {
            RoomKind::Alleyway => &game.states.alleyway_state,
            RoomKind::Cyberway => &game.states.cyberway_state,
            RoomKind::PartsShop => &game.states.parts_shop_state,
            RoomKind::Alleyway2 => &game.states.alleyway2_state,
            RoomKind::Cafe => &game.states.cafe_state,
            RoomKind::Pod => &game.states.pod_state,
            _ => &game.states.tech_shop_state,
        };
        assert_eq!(state.player.x, x);
        assert_eq!(state.kind, room);
        assert_eq!(state.check_progress, GameProgress::TalkToFigure);
    }
}

#[test]
fn the_pod_leads_through_a_prelude_into_the_dive() {
    let mut game = game_in(RoomKind::Pod, GameProgress::GetFirstKey);
    game.deep_dive_data_bank = 1;
    game.states.deep_dive_state.level = 2;
    game.states.pod_state.has_moved = true;
    game.states.pod_state.player.x = 0;
    game.run_current_game_state(&press(|i| i.forward_pressed = true), "");
    assert_eq!(game.next_state, RoomKind::Helionix);
    assert_eq!(game.transition_resource_wanted(), Some("texts/helionix.txt".to_string()));
    assert_eq!(game.manage_state_changes("Dive.\n"), Some(RoomKind::Helionix));
    assert_eq!(game.states.helionix_state.story_texts.len(), 2);
    assert_eq!(game.dialog_wanted(&press(|i| i.interact_pressed = true)), None);

    game.run_current_game_state(&press(|i| i.interact_pressed = true), "");
    assert_eq!(game.next_state, RoomKind::DeepDive);
    assert_eq!(game.transition_resource_wanted(), Some("dives/map1-0.txt".to_string()));
    assert_eq!(game.manage_state_changes("#.\n.$\n"), Some(RoomKind::DeepDive));
    assert_eq!(game.states.deep_dive_state.level, 0);
    assert_eq!(
        game.states.deep_dive_state.tiles,
        vec![
            Tile { kind: TileKind::Wall, x: -64, y: -64 },
            Tile { kind: TileKind::Portal, x: 0, y: 0 },
        ]
    );
    assert_eq!(game.states.deep_dive_state.player, Actor::at(0));
    assert_eq!(game.states.game_progress, GameProgress::GetFirstKey);
}

#[test]
fn lava_restarts_the_level_on_the_next_tick() {
    let mut game = game_in(RoomKind::DeepDive, GameProgress::GetFirstKey);
    game.states.deep_dive_state.tiles = vec![Tile { kind: TileKind::Lava, x: 0, y: 64 }];
    assert!(game.can_run());
    game.run_current_game_state(&press(|i| i.forward_pressed = true), "");
    assert_eq!(game.states.deep_dive_state.player.y, 64);
    assert_eq!(game.next_state, RoomKind::DeepDive);
    assert!(game.next_changed);
    assert_eq!(game.transition_wanted(), Some(RoomKind::DeepDive));
    assert_eq!(game.transition_resource_wanted(), Some("dives/map0-0.txt".to_string()));

    assert_eq!(game.manage_state_changes("~\n"), Some(RoomKind::DeepDive));
    assert_eq!(game.states.deep_dive_state.player, Actor::at(0));
    assert_eq!(game.states.deep_dive_state.tiles, vec![Tile { kind: TileKind::Lava, x: -64, y: -64 }]);
    assert_eq!(game.states.game_progress, GameProgress::GetFirstKey);
}

#[test]
fn a_data_port_leads_to_the_next_level() {
    let mut game = game_in(RoomKind::DeepDive, GameProgress::GetFirstKey);
    game.states.deep_dive_state.tiles = vec![Tile { kind: TileKind::DataPort, x: 64, y: 0 }];
    game.run_current_game_state(&press(|i| i.right_pressed = true), "");
    assert_eq!(game.states.deep_dive_state.level, 1);
    assert_eq!(game.transition_resource_wanted(), Some("dives/map0-1.txt".to_string()));
    assert_eq!(game.manage_state_changes(""), Some(RoomKind::DeepDive));
    assert_eq!(game.states.deep_dive_state.level, 1);
}

#[test]
fn the_portal_turns_a_key_into_its_data() {
    for (key, data) in [
        (GameProgress::GetFirstKey, GameProgress::GetFirstData),
        (GameProgress::GetSecondKey, GameProgress::GetSecondData),
    ] {
        let mut game = game_in(RoomKind::DeepDive, key);
        game.states.deep_dive_state.tiles = vec![Tile { kind: TileKind::Portal, x: 0, y: -64 }];
        game.run_current_game_state(&press(|i| i.back_pressed = true), "");
        assert_eq!(game.deep_dive_data_bank, 1);
        assert_eq!(game.next_state, RoomKind::Pod);
        assert_eq!(game.transition_wanted(), Some(RoomKind::Pod));
        assert_eq!(game.transition_resource_wanted(), None);
        assert_eq!(game.manage_state_changes(""), Some(RoomKind::Pod));
        assert_eq!(game.current_state, RoomKind::Pod);
        assert_eq!(game.states.game_progress, data);
        assert_eq!(game.states.pod_state.check_progress, data);
        assert_eq!(game.states.pod_state.player.x, -200);
    }
}

#[test]
fn the_final_key_leads_from_the_dive_to_the_end() {
    let mut game = game_in(RoomKind::DeepDive, GameProgress::GetFinalKey);
    game.request(RoomKind::Pod);
    assert_eq!(game.transition_wanted(), Some(RoomKind::End));
    assert_eq!(game.transition_resource_wanted(), Some("texts/end.txt".to_string()));
    assert_eq!(game.manage_state_changes("The end.\n"), Some(RoomKind::End));
    assert_eq!(game.current_state, RoomKind::End);
    assert_eq!(game.next_state, RoomKind::Pod);
    assert_eq!(game.states.game_progress, GameProgress::GetFinalKey);
    assert_eq!(game.states.end_state.check_progress, GameProgress::GetFinalKey);
    assert_eq!(game.states.end_state.story_texts, vec!["The end.".to_string(), String::new()]);

    game.run_current_game_state(&press(|i| i.interact_pressed = true), "");
    assert!(!game.next_changed);
    game.request(RoomKind::Intro);
    assert_eq!(game.manage_state_changes(""), None);
    assert_eq!(game.current_state, RoomKind::End);
}

#[test]
fn other_stages_come_back_from_the_dive_as_they_were() {
    for stage in [
        GameProgress::Start,
        GameProgress::TalkToFigure,
        GameProgress::GetFirstData,
        GameProgress::GetSecondData,
        GameProgress::GetFinalData,
    ] {
        let mut game = game_in(RoomKind::DeepDive, stage);
        game.request(RoomKind::Pod);
        assert_eq!(game.manage_state_changes(""), Some(RoomKind::Pod));
        assert_eq!(game.states.game_progress, stage);
    }
}

#[test]
fn the_debug_key_of_the_dive_has_no_way() {
    let mut game = game_in(RoomKind::DeepDive, GameProgress::GetFirstKey);
    game.run_current_game_state(&press(|i| i.debug_pressed = true), "");
    assert_eq!(game.next_state, RoomKind::TechShop);
    assert!(game.next_changed);
    assert_eq!(game.manage_state_changes(""), None);
    assert_eq!(game.current_state, RoomKind::DeepDive);
}

#[test]
fn the_game_names_the_script_of_a_talk() {
    let mut game = game_in(RoomKind::TechShop, GameProgress::GetFirstData);
    game.states.tech_shop_state.has_moved = true;
    game.states.tech_shop_state.player.x = -200;
    let talk = press(|i| i.interact_pressed = true);
    assert_eq!(game.dialog_wanted(&TickInput::idle()), None);
    assert_eq!(
        game.dialog_wanted(&talk),
        Some("texts/tech_shop/first_data/dialog1-0.txt".to_string())
    );
    game.run_current_game_state(&talk, "Beep.\nHm?\n");
    assert_eq!(game.states.tech_shop_state.current_msg, "Beep.");
    assert_eq!(game.dialog_wanted(&talk), None);
    assert!(!game.next_changed);
    assert_eq!(game.states.game_progress, GameProgress::GetFirstData);
}

#[test]
fn the_story_never_moves_back() {
    let stages = [
        GameProgress::Start,
        GameProgress::TalkToFigure,
        GameProgress::GetFirstKey,
        GameProgress::GetFirstData,
        GameProgress::GetSecondKey,
        GameProgress::GetSecondData,
        GameProgress::GetFinalKey,
        GameProgress::GetFinalData,
    ];
    for from in ROOMS {
        for to in ROOMS {
            for stage in stages {
                let mut game = game_in(from, stage);
                game.states.alleyway_state.dialog_state = 1;
                game.states.alleyway2_state.dialog_state = 1;
                game.request(to);
                let entered = game.manage_state_changes("");
                let after = game.states.game_progress.stage_number();
                assert!(after >= stage.stage_number());
                assert!(after <= stage.stage_number() + 1);
                if let Some(room) = entered {
                    let last_dive = from == RoomKind::DeepDive
                        && to == RoomKind::Pod
                        && stage == GameProgress::GetFinalKey;
                    assert_eq!(room == RoomKind::End, last_dive);
                    assert_eq!(room != to, last_dive);
                }
            }
        }
    }
}
