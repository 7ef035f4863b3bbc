use cyberharvest::dialog::{dialog_path, manage_dialog};
use cyberharvest::kind::RoomKind;
use cyberharvest::progress::GameProgress;

#[test]
fn dialog_path_names_room_stage_character_and_mark() {
    assert_eq!(
        dialog_path(RoomKind::TechShop, GameProgress::Start, 1, 0),
        "texts/tech_shop/start/dialog1-0.txt"
    );
    assert_eq!(
        dialog_path(RoomKind::Alleyway2, GameProgress::GetSecondData, 2, 1),
        "texts/alleyway2/second_data/dialog2-1.txt"
    );
    assert_eq!(
        dialog_path(RoomKind::Alleyway, GameProgress::TalkToFigure, 12, 10),
        "texts/alleyway/talk/dialog12-10.txt"
    );
}

#[test]
fn dialog_of_four_lines_ends_with_the_fifth_press() {
    let mut texts: Vec<String> = Vec::new();
    let mut msg = String::from("Floating Robot: Press [Space] to talk.");
    let mut state = 0u32;
    let mut line = 0usize;
    let source = "one\ntwo\nthree\nfour";
    let expected = [("one", 1u32), ("two", 0), ("three", 1), ("four", 0)];
    for (i, (text, portrait)) in expected.iter().enumerate() {
        let turn = manage_dialog(1, state, line, &mut texts, &mut msg, source);
        assert_eq!(turn, (0, i + 1, *portrait));
        assert_eq!(msg, *text);
        assert_eq!(texts.len(), 4);
        state = turn.0;
        line = turn.1;
    }
    let turn = manage_dialog(1, state, line, &mut texts, &mut msg, source);
    assert_eq!(turn, (1, 4, 1));
    assert_eq!(msg, "");
    let turn = manage_dialog(1, turn.0, turn.1, &mut texts, &mut msg, source);
    assert_eq!(turn, (1, 4, 1));
    assert_eq!(msg, "");
}

#[test]
fn dialog_reads_its_script_once() {
    let mut texts: Vec<String> = Vec::new();
    let mut msg = String::new();
    let turn = manage_dialog(2, 0, 0, &mut texts, &mut msg, "first\nsecond");
    assert_eq!(turn, (0, 1, 2));
    assert_eq!(msg, "first");
    let turn = manage_dialog(2, 0, 1, &mut texts, &mut msg, "something\nelse\nentirely");
    assert_eq!(turn, (0, 2, 0));
    assert_eq!(msg, "second");
    assert_eq!(texts, vec!["first".to_string(), "second".to_string()]);
}

#[test]
fn dialog_mark_never_passes_one() {
    let mut texts = vec!["only".to_string()];
    let mut msg = String::new();
    assert_eq!(manage_dialog(1, 1, 1, &mut texts, &mut msg, ""), (1, 1, 0));
    assert_eq!(manage_dialog(1, 5, 3, &mut texts, &mut msg, ""), (5, 3, 0));
    assert_eq!(manage_dialog(1, 0, 7, &mut texts, &mut msg, ""), (1, 7, 0));
}

#[test]
fn dialog_with_an_empty_script_has_one_empty_line() {
    let mut texts: Vec<String> = Vec::new();
    let mut msg = String::from("prompt");
    assert_eq!(manage_dialog(3, 0, 0, &mut texts, &mut msg, ""), (0, 1, 3));
    assert_eq!(msg, "");
    assert_eq!(texts, vec![String::new()]);
    assert_eq!(manage_dialog(3, 0, 1, &mut texts, &mut msg, ""), (1, 1, 0));
}
