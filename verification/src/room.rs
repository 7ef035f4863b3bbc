//! The seven rooms in which the player walks: their floor plans, and the
//! state that one visit of a room keeps from tick to tick.
//!
//! All seven rooms run the same tick. What differs between them is a table,
//! keyed by the room: the bounds of the floor, the doors and where they lead,
//! the characters that stand in the room and the prompts they show.

use vstd::prelude::*;
use crate::actor::{
    commit_walk, committed_x, first_npc_hit, move_player, npc_collision_check, settle_walk,
    settled_moved, settled_target, steered, walk_velocity, walk_wanted, Actor, Npc, TickInput,
    BORDER_MARGIN,
};
use crate::dialog::{
    dialog_cache, dialog_message, dialog_next_line, dialog_next_state, dialog_path,
    dialog_portrait, manage_dialog, spec_dialog_path,
};
use crate::geometry::clamped;
use crate::kind::RoomKind;
use crate::progress::{lemma_ladder_rules_fire_once, GameProgress};
use crate::text::{clear_msg, lines_view, played_after, typed, update_msg};

verus! {

/// Script number of the floating robot of the workshop.
pub const ROBOT_ID: u32 = 1;

/// Script number of the mysterious figure of the two back alleys.
pub const FIGURE_ID: u32 = 2;

/// Portrait of the player, shown while the player walks or answers.
pub const PLAYER_PORTRAIT: u32 = 0;

/// Portrait shown when a room opens and beside every door prompt.
pub const GUIDE_PORTRAIT: u32 = 1;

/// A way out of a walking room.
#[derive(Clone, Copy, Debug, PartialEq, Eq, Structural)]
pub enum Exit {
    /// A door that leads to a room.
    Door(RoomKind),
    /// The pod that starts a deep dive. It opens only to a player who holds a key.
    DivePod,
}

/// Bounds of a room's floor: the least and the greatest position of the player.
pub open spec fn spec_bounds(kind: RoomKind) -> (int, int) {
    match kind {
        RoomKind::TechShop => (-430, 430),
        RoomKind::Alleyway => (-610, 620),
        RoomKind::Cyberway => (-605, 610),
        RoomKind::PartsShop => (-275, 275),
        RoomKind::Cafe => (-605, 610),
        RoomKind::Pod => (-280, 280),
        RoomKind::Alleyway2 => (-490, 490),
        _ => (0, 0),
    }
}

/// Where the player appears in a room that is entered without a door.
pub open spec fn spec_default_spawn_x(kind: RoomKind) -> int {
    match kind {
        RoomKind::TechShop => 320,
        RoomKind::PartsShop => -200,
        RoomKind::Pod => -200,
        RoomKind::Alleyway2 => -450,
        _ => 0,
    }
}

/// The banner a room shows when it opens.
pub open spec fn spec_location_string(kind: RoomKind) -> Seq<char> {
    match kind {
        RoomKind::TechShop => "Location: Tech Workshop."@,
        RoomKind::Alleyway => "Location: Tech Workshop Back Alley."@,
        RoomKind::Cyberway => "Location: Cyberway."@,
        RoomKind::PartsShop => "Location: Cyber Parts Shop."@,
        RoomKind::Cafe => "Location: Lycia Cafe."@,
        RoomKind::Pod => "Location: Deep Dive Pod Room."@,
        RoomKind::Alleyway2 => "Location: Lycia Cafe Back Alley."@,
        _ => ""@,
    }
}

/// The prompt a room shows beside its character, if it shows one. The
/// workshop's robot is called Pip once its first script has been heard.
pub open spec fn spec_npc_prompt(kind: RoomKind, dialog_state: int) -> Option<Seq<char>> {
    match kind {
        RoomKind::TechShop => if dialog_state == 0 {
            Some("Floating Robot: Press [Space] to talk."@)
        } else {
            Some("Pip: Press [Space] to talk."@)
        },
        RoomKind::Alleyway => Some("Mysterious Figure: Press [Space] to talk."@),
        RoomKind::Alleyway2 => Some("Mysterious Figure: Press [Space] to talk."@),
        _ => None,
    }
}

/// The way out, if any, in front of which a player at position `x` stands.
pub open spec fn spec_exit_at(kind: RoomKind, x: int) -> Option<Exit> {
    match kind {
        RoomKind::TechShop => if x > 350 {
            Some(Exit::Door(RoomKind::Alleyway))
        } else {
            None
        },
        RoomKind::Alleyway => if 50 < x < 170 {
            Some(Exit::Door(RoomKind::TechShop))
        } else if x > 520 {
            Some(Exit::Door(RoomKind::Cyberway))
        } else {
            None
        },
        RoomKind::Cyberway => if -450 < x < -380 {
            Some(Exit::Door(RoomKind::PartsShop))
        } else if 440 < x < 520 {
            Some(Exit::Door(RoomKind::Cafe))
        } else if x < -550 {
            Some(Exit::Door(RoomKind::Alleyway))
        } else if x > 550 {
            Some(Exit::Door(RoomKind::Alleyway2))
        } else {
            None
        },
        RoomKind::PartsShop => if x < -180 {
            Some(Exit::Door(RoomKind::Cyberway))
        } else {
            None
        },
        RoomKind::Cafe => if 380 < x < 460 {
            Some(Exit::Door(RoomKind::Cyberway))
        } else if x < -520 {
            Some(Exit::Door(RoomKind::Pod))
        } else {
            None
        },
        RoomKind::Pod => if x < -180 {
            Some(Exit::Door(RoomKind::Cafe))
        } else if -60 < x < 190 {
            Some(Exit::DivePod)
        } else {
            None
        },
        RoomKind::Alleyway2 => if x < -450 {
            Some(Exit::Door(RoomKind::Cyberway))
        } else {
            None
        },
        _ => None,
    }
}

/// The prompt shown in front of a way out of room `kind`.
pub open spec fn spec_exit_prompt(kind: RoomKind, exit: Exit) -> Seq<char> {
    match exit {
        Exit::DivePod => "Press [W] to Deep Dive."@,
        Exit::Door(RoomKind::Alleyway) => match kind {
            RoomKind::TechShop => "Press [W] to enter the alleyway."@,
            _ => "Press [W] to enter Tech Workshop Back Alley."@,
        },
        Exit::Door(RoomKind::TechShop) => "Press [W] to enter the Tech Workshop."@,
        Exit::Door(RoomKind::Cyberway) => "Press [W] to enter the Cyberway."@,
        Exit::Door(RoomKind::PartsShop) => "Press [W] to enter the Cyber Parts Shop."@,
        Exit::Door(RoomKind::Cafe) => "Press [W] to enter Lycia Cafe."@,
        Exit::Door(RoomKind::Alleyway2) => "Press [W] to enter Lycia Cafe Back Alley."@,
        Exit::Door(RoomKind::Pod) => "Press [W] to enter the Deep Dive Pod Room."@,
        Exit::Door(_) => ""@,
    }
}

/// The room a way out leads to. The dive pod leads to the prelude of the dive:
/// Fusiogenic for the holder of the final key, Helionix otherwise.
pub open spec fn spec_exit_target(exit: Exit, progress: GameProgress) -> RoomKind {
    match exit {
        Exit::Door(room) => room,
        Exit::DivePod => if progress == GameProgress::GetFinalKey {
            RoomKind::Fusiogenic
        } else {
            RoomKind::Helionix
        },
    }
}

/// Whether the figure of the cafe's back alley is there: it waits in every
/// stage but the first and those in which the player holds a key.
pub open spec fn figure_waits(progress: GameProgress) -> bool {
    progress != GameProgress::Start && !progress.spec_has_key()
}

/// The characters that stand in a room when it opens. The robot is always in
/// the workshop. The figure stands in the workshop's back alley until its
/// script has been heard, and in the cafe's back alley whenever it waits.
pub open spec fn spec_cast(kind: RoomKind, progress: GameProgress, dialog_state: int) -> Seq<Npc> {
    match kind {
        RoomKind::TechShop => seq![Npc { x: -200i32, y: 10i32, talking_id: ROBOT_ID }],
        RoomKind::Alleyway => if dialog_state == 0 {
            seq![Npc { x: -310i32, y: 0i32, talking_id: FIGURE_ID }]
        } else {
            Seq::empty()
        },
        RoomKind::Alleyway2 => if figure_waits(progress) {
            seq![Npc { x: 310i32, y: 0i32, talking_id: FIGURE_ID }]
        } else {
            Seq::empty()
        },
        _ => Seq::empty(),
    }
}

/// The stage of the story that a room hands back when it closes. The two back
/// alleys move the story one rung up when the figure's script has been heard;
/// no other room changes the stage.
pub open spec fn spec_progress_after_close(
    kind: RoomKind,
    progress: GameProgress,
    dialog_state: int,
) -> GameProgress {
    if dialog_state == 0 {
        progress
    } else {
        match kind {
            RoomKind::Alleyway => progress.spec_after_alleyway_talk(),
            RoomKind::Alleyway2 => progress.spec_after_alleyway2_talk(),
            _ => progress,
        }
    }
}

/// Bounds of a room's floor.
pub fn bounds(kind: RoomKind) -> (b: (i32, i32))
    ensures
        (b.0 as int, b.1 as int) == spec_bounds(kind),
        -1000 <= b.0 <= 0 <= b.1 <= 1000,
{
    match kind {
        RoomKind::TechShop => (-430, 430),
        RoomKind::Alleyway => (-610, 620),
        RoomKind::Cyberway => (-605, 610),
        RoomKind::PartsShop => (-275, 275),
        RoomKind::Cafe => (-605, 610),
        RoomKind::Pod => (-280, 280),
        RoomKind::Alleyway2 => (-490, 490),
        _ => (0, 0),
    }
}

/// Where the player appears in a room that is entered without a door.
pub fn default_spawn_x(kind: RoomKind) -> (x: i32)
    ensures
        x == spec_default_spawn_x(kind),
{
    match kind {
        RoomKind::TechShop => 320,
        RoomKind::PartsShop => -200,
        RoomKind::Pod => -200,
        RoomKind::Alleyway2 => -450,
        _ => 0,
    }
}

/// The banner a room shows when it opens.
pub fn location_string(kind: RoomKind) -> (banner: &'static str)
    ensures
        banner@ == spec_location_string(kind),
{
    match kind {
        RoomKind::TechShop => "Location: Tech Workshop.",
        RoomKind::Alleyway => "Location: Tech Workshop Back Alley.",
        RoomKind::Cyberway => "Location: Cyberway.",
        RoomKind::PartsShop => "Location: Cyber Parts Shop.",
        RoomKind::Cafe => "Location: Lycia Cafe.",
        RoomKind::Pod => "Location: Deep Dive Pod Room.",
        RoomKind::Alleyway2 => "Location: Lycia Cafe Back Alley.",
        _ => "",
    }
}

/// The prompt a room shows beside its character, if it shows one.
pub fn npc_prompt(kind: RoomKind, dialog_state: u32) -> (prompt: Option<&'static str>)
    ensures
        prompt is Some == spec_npc_prompt(kind, dialog_state as int) is Some,
        prompt matches Some(p) ==> p@ == spec_npc_prompt(kind, dialog_state as int)->0,
{
    match kind {
        RoomKind::TechShop => if dialog_state == 0 {
            Some("Floating Robot: Press [Space] to talk.")
        } else {
            Some("Pip: Press [Space] to talk.")
        },
        RoomKind::Alleyway => Some("Mysterious Figure: Press [Space] to talk."),
        RoomKind::Alleyway2 => Some("Mysterious Figure: Press [Space] to talk."),
        _ => None,
    }
}

/// The way out, if any, in front of which a player at position `x` stands.
pub fn exit_at(kind: RoomKind, x: i64) -> (exit: Option<Exit>)
    ensures
        exit == spec_exit_at(kind, x as int),
{
    match kind {
        RoomKind::TechShop => if x > 350 {
            Some(Exit::Door(RoomKind::Alleyway))
        } else {
            None
        },
        RoomKind::Alleyway => if 50 < x && x < 170 {
            Some(Exit::Door(RoomKind::TechShop))
        } else if x > 520 {
            Some(Exit::Door(RoomKind::Cyberway))
        } else {
            None
        },
        RoomKind::Cyberway => if -450 < x && x < -380 {
            Some(Exit::Door(RoomKind::PartsShop))
        } else if 440 < x && x < 520 {
            Some(Exit::Door(RoomKind::Cafe))
        } else if x < -550 {
            Some(Exit::Door(RoomKind::Alleyway))
        } else if x > 550 {
            Some(Exit::Door(RoomKind::Alleyway2))
        } else {
            None
        },
        RoomKind::PartsShop => if x < -180 {
            Some(Exit::Door(RoomKind::Cyberway))
        } else {
            None
        },
        RoomKind::Cafe => if 380 < x && x < 460 {
            Some(Exit::Door(RoomKind::Cyberway))
        } else if x < -520 {
            Some(Exit::Door(RoomKind::Pod))
        } else {
            None
        },
        RoomKind::Pod => if x < -180 {
            Some(Exit::Door(RoomKind::Cafe))
        } else if -60 < x && x < 190 {
            Some(Exit::DivePod)
        } else {
            None
        },
        RoomKind::Alleyway2 => if x < -450 {
            Some(Exit::Door(RoomKind::Cyberway))
        } else {
            None
        },
        _ => None,
    }
}

/// The prompt shown in front of a way out of room `kind`.
pub fn exit_prompt(kind: RoomKind, exit: Exit) -> (prompt: &'static str)
    ensures
        prompt@ == spec_exit_prompt(kind, exit),
{
    match exit {
        Exit::DivePod => "Press [W] to Deep Dive.",
        Exit::Door(RoomKind::Alleyway) => match kind {
            RoomKind::TechShop => "Press [W] to enter the alleyway.",
            _ => "Press [W] to enter Tech Workshop Back Alley.",
        },
        Exit::Door(RoomKind::TechShop) => "Press [W] to enter the Tech Workshop.",
        Exit::Door(RoomKind::Cyberway) => "Press [W] to enter the Cyberway.",
        Exit::Door(RoomKind::PartsShop) => "Press [W] to enter the Cyber Parts Shop.",
        Exit::Door(RoomKind::Cafe) => "Press [W] to enter Lycia Cafe.",
        Exit::Door(RoomKind::Alleyway2) => "Press [W] to enter Lycia Cafe Back Alley.",
        Exit::Door(RoomKind::Pod) => "Press [W] to enter the Deep Dive Pod Room.",
        Exit::Door(_) => "",
    }
}

/// The room a way out leads to.
pub fn exit_target(exit: Exit, progress: GameProgress) -> (room: RoomKind)
    ensures
        room == spec_exit_target(exit, progress),
{
    match exit {
        Exit::Door(room) => room,
        Exit::DivePod => if progress.is_final_key() {
            RoomKind::Fusiogenic
        } else {
            RoomKind::Helionix
        },
    }
}

/// What one visit of a walking room keeps from tick to tick.
#[derive(Clone, Debug)]
pub struct RoomState {
    /// Which room this is.
    pub kind: RoomKind,
    /// The stage of the story, as handed in when the room opened.
    pub check_progress: GameProgress,
    /// Number of the portrait beside the text box.
    pub portrait: u32,
    /// The message on display has been typed out in full.
    pub has_played_msg: bool,
    /// The player has walked since the room opened.
    pub has_moved: bool,
    /// The message that the display is typing out.
    pub current_msg: String,
    /// A dialog session is going on.
    pub talking: bool,
    /// Number of the line that the next press of the talk key brings up.
    pub dialog_line: usize,
    /// 0 until the character's first script has been heard to its end, 1 after.
    pub dialog_state: u32,
    /// The lines of the session's script; empty until a talk begins, and
    /// emptied when the player walks.
    pub dialog_texts: Vec<String>,
    /// The text in the text box.
    pub shown_msg: String,
    /// The player.
    pub player: Actor,
    /// The characters that stand in the room.
    pub npcs: Vec<Npc>,
}

/// The mathematical content of a [`RoomState`].
pub struct RoomModel {
    pub kind: RoomKind,
    pub check_progress: GameProgress,
    pub portrait: u32,
    pub has_played_msg: bool,
    pub has_moved: bool,
    pub current_msg: Seq<char>,
    pub talking: bool,
    pub dialog_line: int,
    pub dialog_state: int,
    pub dialog_texts: Seq<Seq<char>>,
    pub shown_msg: Seq<char>,
    pub player: Actor,
    pub npcs: Seq<Npc>,
}

impl View for RoomState {
    type V = RoomModel;

    open spec fn view(&self) -> RoomModel {
        RoomModel {
            kind: self.kind,
            check_progress: self.check_progress,
            portrait: self.portrait,
            has_played_msg: self.has_played_msg,
            has_moved: self.has_moved,
            current_msg: self.current_msg@,
            talking: self.talking,
            dialog_line: self.dialog_line as int,
            dialog_state: self.dialog_state as int,
            dialog_texts: lines_view(self.dialog_texts@),
            shown_msg: self.shown_msg@,
            player: self.player,
            npcs: self.npcs@,
        }
    }
}

/// What the walk of one tick comes to: the position aimed at, and whether the
/// tick counts as a walk.
pub struct Walk {
    pub target: int,
    pub moved: bool,
}

/// What the room decides in one tick, before the display is updated: the new
/// state, whether the display is to be cleared, and the room asked for.
pub struct Encounter {
    pub room: RoomModel,
    pub queue_clear: bool,
    pub request: Option<RoomKind>,
}

/// A room that has never been opened.
pub open spec fn room_unopened(kind: RoomKind) -> RoomModel {
    RoomModel {
        kind,
        check_progress: GameProgress::Start,
        portrait: PLAYER_PORTRAIT,
        has_played_msg: false,
        has_moved: false,
        current_msg: Seq::empty(),
        talking: false,
        dialog_line: 0,
        dialog_state: 0,
        dialog_texts: Seq::empty(),
        shown_msg: Seq::empty(),
        player: Actor { x: 0, y: 0, velocity_x: 0, velocity_y: 0, flip_x: false },
        npcs: Seq::empty(),
    }
}

/// The room as it opens: the visit's flags are reset, the banner is the
/// message, the display is empty, the player stands at `spawn_x`, and the
/// characters of the room take their places. What the room remembers of
/// earlier visits stays: the mark of a heard script and the lines it holds.
/// Only the cafe's back alley forgets the mark, whenever its figure waits again.
pub open spec fn room_started(m: RoomModel, progress: GameProgress, spawn_x: i32) -> RoomModel {
    RoomModel {
        check_progress: progress,
        portrait: GUIDE_PORTRAIT,
        has_played_msg: false,
        has_moved: false,
        current_msg: spec_location_string(m.kind),
        talking: false,
        dialog_line: 0,
        dialog_state: if m.kind == RoomKind::Alleyway2 && figure_waits(progress) {
            0
        } else {
            m.dialog_state
        },
        shown_msg: Seq::empty(),
        player: Actor { x: spawn_x, y: 0, velocity_x: 0, velocity_y: 0, flip_x: false },
        npcs: spec_cast(m.kind, progress, m.dialog_state),
        ..m
    }
}

/// The room as it closes: the stage may have moved one rung up, and nothing
/// is on show any more.
pub open spec fn room_closed(m: RoomModel) -> RoomModel {
    RoomModel {
        check_progress: spec_progress_after_close(m.kind, m.check_progress, m.dialog_state),
        shown_msg: Seq::empty(),
        npcs: Seq::empty(),
        ..m
    }
}

/// The walk of one tick: the keys give the aim, the guard settles it.
pub open spec fn walk_of(m: RoomModel, input: TickInput) -> Walk {
    let b = spec_bounds(m.kind);
    let aim = m.player.x + walk_velocity(input);
    Walk {
        target: settled_target(b.0, b.1, BORDER_MARGIN as int, aim),
        moved: settled_moved(b.0, b.1, BORDER_MARGIN as int, aim, walk_wanted(input)),
    }
}

/// A walk interrupts a talk: the session ends, its lines are dropped, and the
/// player's own portrait is shown.
pub open spec fn interrupted(m: RoomModel) -> RoomModel {
    RoomModel {
        has_moved: true,
        talking: false,
        portrait: PLAYER_PORTRAIT,
        dialog_line: 0,
        dialog_texts: Seq::empty(),
        ..m
    }
}

/// The player stands beside character `npc`. Outside a session the room's
/// prompt, if it has one, becomes the message. A press of the talk key opens
/// or continues the session and asks for the display to be cleared.
pub open spec fn talk_phase(m: RoomModel, input: TickInput, npc: u32, source: Seq<char>) -> Encounter {
    let prompted = if !m.talking && spec_npc_prompt(m.kind, m.dialog_state) is Some {
        RoomModel { current_msg: spec_npc_prompt(m.kind, m.dialog_state)->0, ..m }
    } else {
        m
    };
    if input.interact_pressed {
        let lines = dialog_cache(prompted.dialog_texts, source);
        Encounter {
            room: RoomModel {
                talking: true,
                dialog_texts: lines,
                current_msg: dialog_message(lines, prompted.dialog_line),
                dialog_line: dialog_next_line(lines, prompted.dialog_line),
                dialog_state: dialog_next_state(lines, prompted.dialog_line, prompted.dialog_state),
                portrait: dialog_portrait(npc, prompted.dialog_line),
                ..prompted
            },
            queue_clear: true,
            request: None,
        }
    } else {
        Encounter { room: prompted, queue_clear: false, request: None }
    }
}

/// The player stands beside no character, or walks. A player at rest in
/// front of a way out sees its prompt, and the forward key asks for the room
/// behind it; the dive pod shows nothing to a player without a key. Anywhere
/// else a message that has played is cleared.
pub open spec fn door_phase(m: RoomModel, input: TickInput, walk: Walk) -> Encounter {
    if !walk.moved && spec_exit_at(m.kind, walk.target) is Some {
        let exit = spec_exit_at(m.kind, walk.target)->0;
        if exit == Exit::DivePod && !m.check_progress.spec_has_key() {
            Encounter {
                room: RoomModel { current_msg: Seq::empty(), ..m },
                queue_clear: true,
                request: None,
            }
        } else {
            Encounter {
                room: RoomModel {
                    portrait: GUIDE_PORTRAIT,
                    current_msg: spec_exit_prompt(m.kind, exit),
                    ..m
                },
                queue_clear: false,
                request: if input.forward_pressed {
                    Some(spec_exit_target(exit, m.check_progress))
                } else {
                    None
                },
            }
        }
    } else {
        Encounter { room: m, queue_clear: m.has_played_msg, request: None }
    }
}

/// What the room decides once the walk is settled. Nothing happens before
/// the player's first walk. After it, a character within reach of a player at
/// rest comes before any door.
pub open spec fn encounter(m: RoomModel, input: TickInput, walk: Walk, source: Seq<char>) -> Encounter {
    if !m.has_moved {
        Encounter { room: m, queue_clear: false, request: None }
    } else if !walk.moved && first_npc_hit(m.npcs, walk.target, m.player.y as int) is Some {
        talk_phase(m, input, first_npc_hit(m.npcs, walk.target, m.player.y as int)->0, source)
    } else {
        door_phase(m, input, walk)
    }
}

/// The display after the tick: cleared when that was asked for and a session
/// is going on or the message has played; typed one character further
/// otherwise, and the message counts as played from the tick on which the
/// display reaches its length.
pub open spec fn displayed(e: Encounter) -> RoomModel {
    let m = e.room;
    if e.queue_clear && (m.talking || m.has_played_msg) {
        RoomModel { shown_msg: Seq::empty(), ..m }
    } else {
        RoomModel {
            shown_msg: typed(m.shown_msg, m.current_msg),
            has_played_msg: played_after(m.shown_msg, m.current_msg),
            ..m
        }
    }
}

/// The room before the encounter: the keys have steered the player, and a
/// walk has interrupted the talk.
pub open spec fn walked(m: RoomModel, input: TickInput) -> RoomModel {
    let steered_room = RoomModel { player: steered(m.player, input), ..m };
    if walk_of(m, input).moved {
        interrupted(steered_room)
    } else {
        steered_room
    }
}

/// One tick of a walking room. `source` is the text of the script named by
/// [`dialog_request`]; a tick for which that names none does not look at it.
#[verifier::opaque]
pub open spec fn room_step(m: RoomModel, input: TickInput, source: Seq<char>) -> RoomModel {
    let walk = walk_of(m, input);
    let shown = displayed(encounter(walked(m, input), input, walk, source));
    let b = spec_bounds(m.kind);
    RoomModel { player: Actor { x: clamped(walk.target, b.0, b.1) as i32, ..shown.player }, ..shown }
}

/// The room that one tick of a walking room asks for, if it asks for one.
#[verifier::opaque]
pub open spec fn room_request(m: RoomModel, input: TickInput, source: Seq<char>) -> Option<RoomKind> {
    encounter(walked(m, input), input, walk_of(m, input), source).request
}

/// The script that the tick will read: the one of the character beside a
/// player at rest, when the talk key is pressed and the session holds no lines.
pub open spec fn dialog_request(m: RoomModel, input: TickInput) -> Option<Seq<char>> {
    let walk = walk_of(m, input);
    let hit = first_npc_hit(m.npcs, walk.target, m.player.y as int);
    if m.has_moved && !walk.moved && hit is Some && input.interact_pressed && m.dialog_texts.len()
        == 0 {
        Some(spec_dialog_path(m.kind, m.check_progress, hit->0 as nat, m.dialog_state as nat))
    } else {
        None
    }
}

/// The room after a run of ticks, one for each of `inputs`, each reading `source`.
pub open spec fn room_after(m: RoomModel, inputs: Seq<TickInput>, source: Seq<char>) -> RoomModel
    decreases inputs.len(),
{
    if inputs.len() == 0 {
        m
    } else {
        room_step(room_after(m, inputs.drop_last(), source), inputs.last(), source)
    }
}

/// Whether no tick of `inputs` asks for a walk.
pub open spec fn no_walk(inputs: Seq<TickInput>) -> bool {
    forall|i: int| 0 <= i < inputs.len() ==> !walk_wanted(#[trigger] inputs[i])
}

/// A player who has not walked since the room opened cannot talk: ticks
/// without a walk leave the room's memory of the story as it was.
pub proof fn lemma_visit_without_walk(m: RoomModel, inputs: Seq<TickInput>, source: Seq<char>)
    requires
        !m.has_moved,
        no_walk(inputs),
    ensures
        !room_after(m, inputs, source).has_moved,
        room_after(m, inputs, source).kind == m.kind,
        room_after(m, inputs, source).check_progress == m.check_progress,
        room_after(m, inputs, source).dialog_state == m.dialog_state,
    decreases inputs.len(),
{
    if inputs.len() > 0 {
        let before = inputs.drop_last();
        assert forall|i: int| 0 <= i < before.len() implies !walk_wanted(#[trigger] before[i]) by {
            assert(before[i] == inputs[i]);
        }
        lemma_visit_without_walk(m, before, source);
        assert(!walk_wanted(inputs[inputs.len() - 1]));
        reveal(room_step);
    }
}

/// Coming back does not fire the ladder again. Let a room close and hand
/// back a stage of the story, raised or not. If the room is then opened in
/// that stage and closed again after any number of ticks in which the player
/// does not walk, it hands back the same stage: a script that has been heard
/// raises the story once.
pub proof fn lemma_reentry_fires_once(
    m: RoomModel,
    spawn_x: i32,
    inputs: Seq<TickInput>,
    source: Seq<char>,
)
    requires
        no_walk(inputs),
    ensures
        room_closed(
            room_after(
                room_started(room_closed(m), room_closed(m).check_progress, spawn_x),
                inputs,
                source,
            ),
        ).check_progress == room_closed(m).check_progress,
{
    let handed = room_closed(m).check_progress;
    let opened = room_started(room_closed(m), handed, spawn_x);
    lemma_visit_without_walk(opened, inputs, source);
    lemma_ladder_rules_fire_once(m.check_progress);
}

/// Closing a room never lowers the stage of the story that the room holds,
/// raises it by one rung at most, and leaves the room the room it is.
pub proof fn lemma_room_closed(m: RoomModel)
    ensures
        room_closed(m).check_progress.rank() >= m.check_progress.rank(),
        room_closed(m).check_progress.rank() <= m.check_progress.rank() + 1,
        room_closed(m).kind == m.kind,
{
}

/// A tick that names no script does not look at `source`: whatever text is
/// handed in, the room after the tick and the room asked for are the same.
pub proof fn lemma_room_step_ignores_source(
    m: RoomModel,
    input: TickInput,
    a: Seq<char>,
    b: Seq<char>,
)
    requires
        dialog_request(m, input) is None,
    ensures
        room_step(m, input, a) == room_step(m, input, b),
        room_request(m, input, a) == room_request(m, input, b),
{
    reveal(room_step);
    reveal(room_request);
    let walk = walk_of(m, input);
    let w = walked(m, input);
    assert(encounter(w, input, walk, a) == encounter(w, input, walk, b)) by {
        if w.has_moved && !walk.moved && first_npc_hit(w.npcs, walk.target, w.player.y as int)
            is Some {
            assert(w.npcs == m.npcs && w.player.y == m.player.y);
            assert(w.has_moved == m.has_moved);
            assert(w.dialog_texts == m.dialog_texts);
            if input.interact_pressed {
                assert(m.dialog_texts.len() != 0);
                assert(dialog_cache(w.dialog_texts, a) == dialog_cache(w.dialog_texts, b));
            }
        }
    }
}

/// The floor holds the player. After a tick the player stands inside the
/// room's bounds, at the position that the guarded walk commits; and the tick
/// counts as the player's first walk only if the walk was not thrown away.
pub proof fn lemma_room_step_commits(m: RoomModel, input: TickInput, source: Seq<char>)
    ensures
        spec_bounds(m.kind).0 <= room_step(m, input, source).player.x <= spec_bounds(m.kind).1,
        room_step(m, input, source).player.x == committed_x(
            spec_bounds(m.kind).0,
            spec_bounds(m.kind).1,
            BORDER_MARGIN as int,
            m.player.x + walk_velocity(input),
        ),
        room_step(m, input, source).has_moved == (m.has_moved || settled_moved(
            spec_bounds(m.kind).0,
            spec_bounds(m.kind).1,
            BORDER_MARGIN as int,
            m.player.x + walk_velocity(input),
            walk_wanted(input),
        )),
{
    reveal(room_step);
}

/// A tick changes neither which room a room is nor the stage of the story
/// that it holds.
pub proof fn lemma_room_step_keeps(m: RoomModel, input: TickInput, source: Seq<char>)
    ensures
        room_step(m, input, source).kind == m.kind,
        room_step(m, input, source).check_progress == m.check_progress,
{
    reveal(room_step);
}

impl RoomState {
    /// A room that has never been opened.
    pub fn new(kind: RoomKind) -> (room: RoomState)
        ensures
            room@ == room_unopened(kind),
    {
        let room = RoomState {
            kind,
            check_progress: GameProgress::Start,
            portrait: PLAYER_PORTRAIT,
            has_played_msg: false,
            has_moved: false,
            current_msg: String::new(),
            talking: false,
            dialog_line: 0,
            dialog_state: 0,
            dialog_texts: Vec::new(),
            shown_msg: String::new(),
            player: Actor::at(0),
            npcs: Vec::new(),
        };
        proof {
            assert(room@.dialog_texts =~= Seq::<Seq<char>>::empty());
            assert(room@.npcs =~= Seq::<Npc>::empty());
        }
        room
    }

    /// Opens the room for a visit in stage `game_progress`, with the player at `spawn_x`.
    pub fn start(&mut self, game_progress: GameProgress, spawn_x: i32)
        ensures
            final(self)@ == room_started(old(self)@, game_progress, spawn_x),
    {
        self.check_progress = game_progress;
        self.portrait = GUIDE_PORTRAIT;
        self.has_played_msg = false;
        self.has_moved = false;
        self.current_msg = String::from_str(location_string(self.kind));
        self.talking = false;
        self.dialog_line = 0;
        self.shown_msg = String::new();
        self.player = Actor::at(spawn_x);
        let mut npcs: Vec<Npc> = Vec::new();
        match self.kind {
            RoomKind::TechShop => {
                npcs.push(Npc { x: -200, y: 10, talking_id: ROBOT_ID });
            },
            RoomKind::Alleyway => {
                if self.dialog_state == 0 {
                    npcs.push(Npc { x: -310, y: 0, talking_id: FIGURE_ID });
                }
            },
            RoomKind::Alleyway2 => {
                match game_progress {
                    GameProgress::Start => {},
                    GameProgress::GetFirstKey => {},
                    GameProgress::GetSecondKey => {},
                    GameProgress::GetFinalKey => {},
                    _ => {
                        self.dialog_state = 0;
                        npcs.push(Npc { x: 310, y: 0, talking_id: FIGURE_ID });
                    },
                }
            },
            _ => {},
        }
        proof {
            assert(npcs@ =~= spec_cast(old(self).kind, game_progress, old(self).dialog_state as int));
        }
        self.npcs = npcs;
    }

    /// The script that the next call of [`RoomState::run`] with `input` will
    /// read, by its path below the asset root, or `None` if it reads none.
    pub fn dialog_wanted(&self, input: &TickInput) -> (path: Option<String>)
        ensures
            path is Some == dialog_request(self@, *input) is Some,
            path matches Some(p) ==> p@ == dialog_request(self@, *input)->0,
    {
        let b: (i32, i32) = bounds(self.kind);
        let mut probe: Actor = self.player;
        let (aim, wanted) = move_player(input, &mut probe);
        let (target, moved) = settle_walk(b.0, b.1, BORDER_MARGIN, aim, wanted);
        if !self.has_moved || moved || !input.interact_pressed || self.dialog_texts.len() != 0 {
            return None;
        }
        match npc_collision_check(target as i32, self.player.y, &self.npcs) {
            Some(npc) => Some(dialog_path(self.kind, self.check_progress, npc, self.dialog_state)),
            None => None,
        }
    }

    /// One tick of the room.
    ///
    /// The keys steer the player; a walk that aims beyond the widened bounds
    /// is thrown away. A walk interrupts a talk. A player at rest beside a
    /// character is prompted and may talk; a player at rest in front of a way
    /// out is prompted and may ask for the room behind it. The display is
    /// then cleared or typed one character further, and the player's position
    /// is committed inside the bounds.
    ///
    /// `source` is the text of the script named by [`RoomState::dialog_wanted`]
    /// for this tick. Returns the room asked for, if any.
    pub fn run(&mut self, input: &TickInput, source: &str) -> (request: Option<RoomKind>)
        ensures
            final(self)@ == room_step(old(self)@, *input, source@),
            request == room_request(old(self)@, *input, source@),
    {
        proof {
            reveal(room_step);
            reveal(room_request);
        }
        let b: (i32, i32) = bounds(self.kind);
        let (aim, wanted) = move_player(input, &mut self.player);
        let (target, moved) = settle_walk(b.0, b.1, BORDER_MARGIN, aim, wanted);
        if moved {
            self.has_moved = true;
            self.talking = false;
            self.portrait = PLAYER_PORTRAIT;
            self.dialog_line = 0;
            self.dialog_texts.clear();
        }
        proof {
            let w = walked(old(self)@, *input);
            assert(self@.dialog_texts =~= w.dialog_texts);
            assert(self@.player == w.player);
            assert(self@ == w);
        }
        let mut queue_clear: bool = false;
        let mut request: Option<RoomKind> = None;
        let npc: Option<u32> = npc_collision_check(target as i32, self.player.y, &self.npcs);
        if self.has_moved {
            let mut beside: bool = false;
            if !moved {
                if let Some(id) = npc {
                    beside = true;
                    if !self.talking {
                        if let Some(prompt) = npc_prompt(self.kind, self.dialog_state) {
                            self.current_msg = String::from_str(prompt);
                        }
                    }
                    if input.interact_pressed {
                        self.talking = true;
                        let turn: (u32, usize, u32) = manage_dialog(
                            id,
                            self.dialog_state,
                            self.dialog_line,
                            &mut self.dialog_texts,
                            &mut self.current_msg,
                            source,
                        );
                        self.dialog_state = turn.0;
                        self.dialog_line = turn.1;
                        self.portrait = turn.2;
                        queue_clear = true;
                    }
                }
            }
            if !beside {
                let exit: Option<Exit> = if moved {
                    None
                } else {
                    exit_at(self.kind, target)
                };
                match exit {
                    Some(way) => {
                        let locked: bool = match way {
                            Exit::DivePod => !self.check_progress.has_key(),
                            Exit::Door(_) => false,
                        };
                        if locked {
                            queue_clear = true;
                            self.current_msg = String::new();
                        } else {
                            self.portrait = GUIDE_PORTRAIT;
                            self.current_msg = String::from_str(exit_prompt(self.kind, way));
                            if input.forward_pressed {
                                request = Some(exit_target(way, self.check_progress));
                            }
                        }
                    },
                    None => {
                        if self.has_played_msg {
                            queue_clear = true;
                        }
                    },
                }
            }
        }
        proof {
            let e = encounter(walked(old(self)@, *input), *input, walk_of(old(self)@, *input), source@);
            assert(self@ == e.room);
            assert(queue_clear == e.queue_clear);
            assert(request == e.request);
        }
        if queue_clear && (self.talking || self.has_played_msg) {
            clear_msg(&mut self.shown_msg);
        } else {
            self.has_played_msg = update_msg(self.current_msg.as_str(), &mut self.shown_msg);
        }
        self.player.x = commit_walk(b.0, b.1, target);
        request
    }

    /// The stage of the story that the room would hand back if it closed now.
    pub fn closing_progress(&self) -> (progress: GameProgress)
        ensures
            progress == room_closed(self@).check_progress,
            progress.rank() >= self.check_progress.rank(),
    {
        if self.dialog_state != 0 {
            match self.kind {
                RoomKind::Alleyway => self.check_progress.after_alleyway_talk(),
                RoomKind::Alleyway2 => self.check_progress.after_alleyway2_talk(),
                _ => self.check_progress,
            }
        } else {
            self.check_progress
        }
    }

    /// Closes the room and hands back the stage of the story. The two back
    /// alleys move the story one rung up when the figure's script has been
    /// heard; no room ever moves it back.
    pub fn close(&mut self) -> (progress: GameProgress)
        ensures
            final(self)@ == room_closed(old(self)@),
            progress == final(self).check_progress,
            progress.rank() >= old(self).check_progress.rank(),
    {
        self.check_progress = self.closing_progress();
        clear_msg(&mut self.shown_msg);
        self.npcs.clear();
        proof {
            assert(self@.npcs =~= Seq::<Npc>::empty());
        }
        self.check_progress
    }
}

} // verus!
