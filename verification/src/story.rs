//! The four rooms that only tell a text: the intro, the end, and the two
//! preludes of a dive. The text is typed out line by line; the talk key moves
//! on to the next line, and after the last line to the room that follows.

use vstd::prelude::*;
use crate::actor::TickInput;
use crate::kind::RoomKind;
use crate::progress::GameProgress;
use crate::text::{lines_view, read_lines, split_lines, typed, update_msg};

verus! {

/// Path of a story room's text below the asset root.
pub open spec fn spec_story_path(kind: RoomKind) -> Seq<char> {
    "texts/"@ + kind.spec_name() + ".txt"@
}

/// The room that follows a story room once its text has been read. Nothing
/// follows the end.
pub open spec fn spec_story_exit(kind: RoomKind) -> Option<RoomKind> {
    match kind {
        RoomKind::Intro => Some(RoomKind::TechShop),
        RoomKind::Helionix => Some(RoomKind::DeepDive),
        RoomKind::Fusiogenic => Some(RoomKind::DeepDive),
        _ => None,
    }
}

/// Path of a story room's text below the asset root.
pub fn story_path(kind: RoomKind) -> (path: String)
    ensures
        path@ == spec_story_path(kind),
{
    let mut path: String = String::from_str("texts/");
    path.append(kind.name());
    path.append(".txt");
    path
}

/// The room that follows a story room once its text has been read.
pub fn story_exit(kind: RoomKind) -> (next: Option<RoomKind>)
    ensures
        next == spec_story_exit(kind),
{
    match kind {
        RoomKind::Intro => Some(RoomKind::TechShop),
        RoomKind::Helionix => Some(RoomKind::DeepDive),
        RoomKind::Fusiogenic => Some(RoomKind::DeepDive),
        _ => None,
    }
}

/// What a story room keeps from tick to tick.
#[derive(Clone, Debug)]
pub struct StoryState {
    /// The stage of the story, as handed in when the room opened.
    pub check_progress: GameProgress,
    /// The text on display.
    pub current_text: String,
    /// The lines of the story.
    pub story_texts: Vec<String>,
    /// Number of the line that is being typed out.
    pub current_story_line: usize,
}

/// The mathematical content of a [`StoryState`].
pub struct StoryModel {
    pub check_progress: GameProgress,
    pub current_text: Seq<char>,
    pub story_texts: Seq<Seq<char>>,
    pub current_story_line: int,
}

impl View for StoryState {
    type V = StoryModel;

    open spec fn view(&self) -> StoryModel {
        StoryModel {
            check_progress: self.check_progress,
            current_text: self.current_text@,
            story_texts: lines_view(self.story_texts@),
            current_story_line: self.current_story_line as int,
        }
    }
}

/// A story room that has never been opened.
pub open spec fn story_unopened() -> StoryModel {
    StoryModel {
        check_progress: GameProgress::Start,
        current_text: Seq::empty(),
        story_texts: Seq::empty(),
        current_story_line: 0,
    }
}

/// The room as it opens: the lines of `source` are added to the lines it
/// holds, and the first line is up. The text on display stays.
pub open spec fn story_started(m: StoryModel, progress: GameProgress, source: Seq<char>) -> StoryModel {
    StoryModel {
        check_progress: progress,
        story_texts: m.story_texts + split_lines(source),
        current_story_line: 0,
        ..m
    }
}

/// The text on display after the typewriter's tick. A room without the line
/// it is to type shows what it showed.
pub open spec fn story_typed(m: StoryModel) -> Seq<char> {
    if 0 <= m.current_story_line < m.story_texts.len() {
        typed(m.current_text, m.story_texts[m.current_story_line])
    } else {
        m.current_text
    }
}

/// Whether a line to move on to is left. The text's last line is the empty
/// one behind its final line feed, so the line before it is the last one shown.
pub open spec fn story_line_left(m: StoryModel) -> bool {
    m.current_story_line + 2 < m.story_texts.len()
}

/// One tick of a story room: the typewriter types, then the talk key moves
/// on to the next line with an empty display, if a line is left.
pub open spec fn story_step(m: StoryModel, input: TickInput) -> StoryModel {
    if input.interact_pressed && story_line_left(m) {
        StoryModel {
            current_story_line: m.current_story_line + 1,
            current_text: Seq::empty(),
            ..m
        }
    } else {
        StoryModel { current_text: story_typed(m), ..m }
    }
}

/// Whether the tick ends the story: the talk key is pressed and no line is left.
pub open spec fn story_finished(m: StoryModel, input: TickInput) -> bool {
    input.interact_pressed && !story_line_left(m)
}

/// The room as it closes: it forgets its lines.
pub open spec fn story_closed(m: StoryModel) -> StoryModel {
    StoryModel { story_texts: Seq::empty(), ..m }
}

impl StoryState {
    /// A story room that has never been opened.
    pub fn new() -> (room: StoryState)
        ensures
            room@ == story_unopened(),
    {
        let room = StoryState {
            check_progress: GameProgress::Start,
            current_text: String::new(),
            story_texts: Vec::new(),
            current_story_line: 0,
        };
        proof {
            assert(room@.story_texts =~= Seq::<Seq<char>>::empty());
        }
        room
    }

    /// Opens the room in stage `game_progress`. `source` is the room's text.
    pub fn start(&mut self, game_progress: GameProgress, source: &str)
        ensures
            final(self)@ == story_started(old(self)@, game_progress, source@),
    {
        self.check_progress = game_progress;
        self.current_story_line = 0;
        let mut lines: Vec<String> = read_lines(source);
        let ghost held = self.story_texts@;
        let ghost read = lines@;
        self.story_texts.append(&mut lines);
        proof {
            assert(self.story_texts@ == held + read);
            assert(lines_view(held + read) =~= lines_view(held) + lines_view(read));
        }
    }

    /// One tick of the room. Returns whether the story is finished: the talk
    /// key was pressed with no line left to move on to.
    pub fn run(&mut self, input: &TickInput) -> (finished: bool)
        ensures
            final(self)@ == story_step(old(self)@, *input),
            finished == story_finished(old(self)@, *input),
    {
        if self.current_story_line < self.story_texts.len() {
            update_msg(self.story_texts[self.current_story_line].as_str(), &mut self.current_text);
        }
        let mut finished: bool = false;
        if input.interact_pressed {
            let total: usize = self.story_texts.len();
            if total >= 2 && self.current_story_line < total - 2 {
                self.current_story_line = self.current_story_line + 1;
                self.current_text = String::new();
            } else {
                finished = true;
            }
        }
        finished
    }

    /// Closes the room and hands back the stage of the story, unchanged.
    pub fn close(&mut self) -> (progress: GameProgress)
        ensures
            final(self)@ == story_closed(old(self)@),
            progress == old(self).check_progress,
    {
        self.story_texts.clear();
        proof {
            assert(self@.story_texts =~= Seq::<Seq<char>>::empty());
        }
        self.check_progress
    }
}

} // verus!
