use cyberharvest::kind::RoomKind;
use cyberharvest::progress::GameProgress;

const STAGES: [GameProgress; 8] = [
    GameProgress::Start,
    GameProgress::TalkToFigure,
    GameProgress::GetFirstKey,
    GameProgress::GetFirstData,
    GameProgress::GetSecondKey,
    GameProgress::GetSecondData,
    GameProgress::GetFinalKey,
    GameProgress::GetFinalData,
];

#[test]
fn stages_are_numbered_in_narrative_order() {
    for (i, stage) in STAGES.iter().enumerate() {
        assert_eq!(stage.stage_number() as usize, i);
    }
}

#[test]
fn key_stages_are_the_three_key_stages() {
    let keys: Vec<bool> = STAGES.iter().map(|s| s.has_key()).collect();
    assert_eq!(keys, vec![false, false, true, false, true, false, true, false]);
    let finals: Vec<bool> = STAGES.iter().map(|s| s.is_final_key()).collect();
    assert_eq!(finals, vec![false, false, false, false, false, false, true, false]);
}

#[test]
fn stage_folders() {
    let folders: Vec<&str> = STAGES.iter().map(|s| s.folder()).collect();
    assert_eq!(
        folders,
        vec![
            "start",
            "talk",
            "first_key",
            "first_data",
            "second_key",
            "second_data",
            "final_key",
            "final_data"
        ]
    );
}

#[test]
fn alleyway_talk_moves_only_the_start() {
    assert_eq!(GameProgress::Start.after_alleyway_talk(), GameProgress::TalkToFigure);
    for stage in &STAGES[1..] {
        assert_eq!(stage.after_alleyway_talk(), *stage);
    }
}

#[test]
fn alleyway2_talk_hands_out_the_keys() {
    assert_eq!(GameProgress::TalkToFigure.after_alleyway2_talk(), GameProgress::GetFirstKey);
    assert_eq!(GameProgress::GetFirstData.after_alleyway2_talk(), GameProgress::GetSecondKey);
    assert_eq!(GameProgress::GetSecondData.after_alleyway2_talk(), GameProgress::GetFinalKey);
    for stage in [
        GameProgress::Start,
        GameProgress::GetFirstKey,
        GameProgress::GetSecondKey,
        GameProgress::GetFinalKey,
        GameProgress::GetFinalData,
    ] {
        assert_eq!(stage.after_alleyway2_talk(), stage);
    }
}

#[test]
fn dive_turns_the_first_two_keys_into_data() {
    assert_eq!(GameProgress::GetFirstKey.after_dive(), GameProgress::GetFirstData);
    assert_eq!(GameProgress::GetSecondKey.after_dive(), GameProgress::GetSecondData);
    assert_eq!(GameProgress::GetFinalKey.after_dive(), GameProgress::GetFinalKey);
    for stage in [
        GameProgress::Start,
        GameProgress::TalkToFigure,
        GameProgress::GetFirstData,
        GameProgress::GetSecondData,
        GameProgress::GetFinalData,
    ] {
        assert_eq!(stage.after_dive(), stage);
    }
}

#[test]
fn no_rule_of_the_ladder_moves_back_or_fires_twice() {
    for stage in STAGES {
        for next in [stage.after_alleyway_talk(), stage.after_alleyway2_talk(), stage.after_dive()] {
            assert!(next.stage_number() >= stage.stage_number());
            assert!(next.stage_number() <= stage.stage_number() + 1);
        }
        assert_eq!(stage.after_alleyway_talk().after_alleyway_talk(), stage.after_alleyway_talk());
        assert_eq!(stage.after_alleyway2_talk().after_alleyway2_talk(), stage.after_alleyway2_talk());
        assert_eq!(stage.after_dive().after_dive(), stage.after_dive());
    }
}

#[test]
fn room_names_and_classes() {
    assert_eq!(RoomKind::TechShop.name(), "tech_shop");
    assert_eq!(RoomKind::Alleyway2.name(), "alleyway2");
    assert_eq!(RoomKind::PartsShop.name(), "parts_shop");
    assert_eq!(RoomKind::Intro.name(), "intro");
    assert!(RoomKind::Pod.is_walkable());
    assert!(!RoomKind::DeepDive.is_walkable());
    assert!(!RoomKind::DeepDive.is_story());
    assert!(RoomKind::End.is_story());
    assert!(!RoomKind::Cafe.is_story());
}
