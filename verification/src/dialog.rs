//! Dialog sessions: which script a talk reads, and what one press of the talk
//! key does to the session.

use vstd::prelude::*;
use crate::kind::RoomKind;
use crate::progress::GameProgress;
use crate::text::{decimal, decimal_text, lines_view, read_lines, split_lines};

verus! {

/// Path of the script that a talk reads, below the asset root. The script is
/// chosen by the room, the stage of the story, the character, and whether the
/// character's first script has been heard to its end.
pub open spec fn spec_dialog_path(
    room: RoomKind,
    progress: GameProgress,
    npc: nat,
    dialog_state: nat,
) -> Seq<char> {
    "texts/"@ + room.spec_name() + "/"@ + progress.spec_folder() + "/dialog"@ + decimal(npc)
        + "-"@ + decimal(dialog_state) + ".txt"@
}

/// Path of the script that a talk reads, below the asset root.
pub fn dialog_path(room: RoomKind, progress: GameProgress, npc: u32, dialog_state: u32) -> (path:
    String)
    ensures
        path@ == spec_dialog_path(room, progress, npc as nat, dialog_state as nat),
{
    let mut path: String = String::from_str("texts/");
    path.append(room.name());
    path.append("/");
    path.append(progress.folder());
    path.append("/dialog");
    let npc_text: String = decimal_text(npc);
    path.append(npc_text.as_str());
    path.append("-");
    let state_text: String = decimal_text(dialog_state);
    path.append(state_text.as_str());
    path.append(".txt");
    path
}

/// The lines a session speaks from: the lines it already holds, or, for a
/// session that holds none, the lines of the script.
pub open spec fn dialog_cache(held: Seq<Seq<char>>, source: Seq<char>) -> Seq<Seq<char>> {
    if held.len() == 0 {
        split_lines(source)
    } else {
        held
    }
}

/// The portrait beside the text box: the character's on even lines, the
/// player's, which has number 0, on odd lines.
pub open spec fn dialog_portrait(npc: u32, dialog_line: int) -> u32 {
    if dialog_line % 2 != 0 {
        0
    } else {
        npc
    }
}

/// The message a press brings up: the session's next line, or nothing once
/// all lines have been spoken.
pub open spec fn dialog_message(lines: Seq<Seq<char>>, dialog_line: int) -> Seq<char> {
    if 0 <= dialog_line < lines.len() {
        lines[dialog_line]
    } else {
        Seq::empty()
    }
}

/// The line number after a press: one more while lines are left.
pub open spec fn dialog_next_line(lines: Seq<Seq<char>>, dialog_line: int) -> int {
    if dialog_line < lines.len() {
        dialog_line + 1
    } else {
        dialog_line
    }
}

/// The session mark after a press: a press that finds no line left raises
/// the mark from 0 to 1, and no press raises it further.
pub open spec fn dialog_next_state(lines: Seq<Seq<char>>, dialog_line: int, dialog_state: int) -> int {
    if dialog_line < lines.len() {
        dialog_state
    } else if dialog_state < 1 {
        dialog_state + 1
    } else {
        dialog_state
    }
}

/// One press of the talk key beside the character with script number
/// `current_talking`.
///
/// A session that holds no lines first takes the lines of `source`, the text
/// of the script; a session that holds lines does not look at `source`. The
/// press then either brings up the next line as the message and moves the line
/// number on, or, with all lines spoken, empties the message and marks the
/// script as heard. Returns the new mark, the new line number, and the portrait
/// to show.
pub fn manage_dialog(
    current_talking: u32,
    dialog_state: u32,
    dialog_line: usize,
    dialog_texts: &mut Vec<String>,
    current_msg: &mut String,
    source: &str,
) -> (res: (u32, usize, u32))
    ensures
        lines_view(final(dialog_texts)@) == dialog_cache(lines_view(old(dialog_texts)@), source@),
        final(current_msg)@ == dialog_message(lines_view(final(dialog_texts)@), dialog_line as int),
        res.0 == dialog_next_state(
            lines_view(final(dialog_texts)@),
            dialog_line as int,
            dialog_state as int,
        ),
        res.1 == dialog_next_line(lines_view(final(dialog_texts)@), dialog_line as int),
        res.2 == dialog_portrait(current_talking, dialog_line as int),
{
    if dialog_texts.len() == 0 {
        *dialog_texts = read_lines(source);
    }
    let portrait: u32 = if dialog_line % 2 != 0 {
        0
    } else {
        current_talking
    };
    if dialog_line < dialog_texts.len() {
        *current_msg = dialog_texts[dialog_line].clone();
        (dialog_state, dialog_line + 1, portrait)
    } else {
        *current_msg = String::new();
        let marked: u32 = if dialog_state < 1 {
            dialog_state + 1
        } else {
            dialog_state
        };
        (marked, dialog_line, portrait)
    }
}

} // verus!
