//! The game as a whole: which room is current, which room has been asked
//! for, the stage of the story, and the table of ways from room to room.
//!
//! One tick of the game is a transition check followed by a tick of the
//! current room. The game reads no file itself: before each of the two steps
//! it names the text it is about to read, and takes that text as an argument.

use vstd::prelude::*;
use crate::actor::TickInput;
use crate::dive::{
    dive_closed, dive_started, dive_step, dive_unopened, in_world, lemma_dive_step_keeps,
    map_path, spec_map_path, DeepDiveState, DiveModel, MAX_MAP_CHARS,
};
use crate::kind::RoomKind;
use crate::progress::{lemma_ladder_moves_forward, GameProgress};
use crate::room::{
    default_spawn_x, dialog_request, lemma_room_closed, lemma_room_step_ignores_source,
    lemma_room_step_keeps, room_closed, room_request, room_started, room_step, room_unopened,
    spec_default_spawn_x, RoomModel, RoomState,
};
use crate::story::{
    spec_story_exit, spec_story_path, story_closed, story_exit, story_finished, story_path,
    story_started, story_step, story_unopened, StoryModel, StoryState,
};

verus! {

/// Where the player appears in the room at the end of a way from room to
/// room, or `None` if there is no such way. Rooms without a floor have the
/// player at the origin. The table is closed: a pair that it does not list is
/// no way, however near the two rooms lie.
pub open spec fn spec_spawn_x(from: RoomKind, to: RoomKind) -> Option<i32> {
    match (from, to) {
        (RoomKind::Intro, RoomKind::TechShop) => Some(320i32),
        (RoomKind::TechShop, RoomKind::Alleyway) => Some(210i32),
        (RoomKind::Alleyway, RoomKind::TechShop) => Some(320i32),
        (RoomKind::Alleyway, RoomKind::Cyberway) => Some(-580i32),
        (RoomKind::Cyberway, RoomKind::Alleyway) => Some(510i32),
        (RoomKind::Cyberway, RoomKind::Cafe) => Some(350i32),
        (RoomKind::Cyberway, RoomKind::Alleyway2) => Some(-450i32),
        (RoomKind::Cyberway, RoomKind::PartsShop) => Some(-200i32),
        (RoomKind::PartsShop, RoomKind::Cyberway) => Some(-350i32),
        (RoomKind::Alleyway2, RoomKind::Cyberway) => Some(520i32),
        (RoomKind::Cafe, RoomKind::Cyberway) => Some(430i32),
        (RoomKind::Cafe, RoomKind::Pod) => Some(-200i32),
        (RoomKind::Pod, RoomKind::Helionix) => Some(0i32),
        (RoomKind::Pod, RoomKind::Fusiogenic) => Some(0i32),
        (RoomKind::Pod, RoomKind::Cafe) => Some(-500i32),
        (RoomKind::Helionix, RoomKind::DeepDive) => Some(0i32),
        (RoomKind::Fusiogenic, RoomKind::DeepDive) => Some(0i32),
        (RoomKind::DeepDive, RoomKind::DeepDive) => Some(0i32),
        (RoomKind::DeepDive, RoomKind::Pod) => Some(-200i32),
        _ => None,
    }
}

/// Where the player appears in the room at the end of a way from room to
/// room, or `None` if there is no such way.
pub fn spawn_x(from: RoomKind, to: RoomKind) -> (x: Option<i32>)
    ensures
        x == spec_spawn_x(from, to),
{
    match (from, to) {
        (RoomKind::Intro, RoomKind::TechShop) => Some(320),
        (RoomKind::TechShop, RoomKind::Alleyway) => Some(210),
        (RoomKind::Alleyway, RoomKind::TechShop) => Some(320),
        (RoomKind::Alleyway, RoomKind::Cyberway) => Some(-580),
        (RoomKind::Cyberway, RoomKind::Alleyway) => Some(510),
        (RoomKind::Cyberway, RoomKind::Cafe) => Some(350),
        (RoomKind::Cyberway, RoomKind::Alleyway2) => Some(-450),
        (RoomKind::Cyberway, RoomKind::PartsShop) => Some(-200),
        (RoomKind::PartsShop, RoomKind::Cyberway) => Some(-350),
        (RoomKind::Alleyway2, RoomKind::Cyberway) => Some(520),
        (RoomKind::Cafe, RoomKind::Cyberway) => Some(430),
        (RoomKind::Cafe, RoomKind::Pod) => Some(-200),
        (RoomKind::Pod, RoomKind::Helionix) => Some(0),
        (RoomKind::Pod, RoomKind::Fusiogenic) => Some(0),
        (RoomKind::Pod, RoomKind::Cafe) => Some(-500),
        (RoomKind::Helionix, RoomKind::DeepDive) => Some(0),
        (RoomKind::Fusiogenic, RoomKind::DeepDive) => Some(0),
        (RoomKind::DeepDive, RoomKind::DeepDive) => Some(0),
        (RoomKind::DeepDive, RoomKind::Pod) => Some(-200),
        _ => None,
    }
}

/// The state of every room, and the stage of the story.
#[derive(Clone, Debug)]
pub struct StateCollection {
    pub game_progress: GameProgress,
    pub intro_state: StoryState,
    pub end_state: StoryState,
    pub helionix_state: StoryState,
    pub fusiogenic_state: StoryState,
    pub tech_shop_state: RoomState,
    pub alleyway_state: RoomState,
    pub cyberway_state: RoomState,
    pub parts_shop_state: RoomState,
    pub cafe_state: RoomState,
    pub pod_state: RoomState,
    pub alleyway2_state: RoomState,
    pub deep_dive_state: DeepDiveState,
}

/// The mathematical content of a [`StateCollection`].
pub struct StatesModel {
    pub game_progress: GameProgress,
    pub intro: StoryModel,
    pub end: StoryModel,
    pub helionix: StoryModel,
    pub fusiogenic: StoryModel,
    pub tech_shop: RoomModel,
    pub alleyway: RoomModel,
    pub cyberway: RoomModel,
    pub parts_shop: RoomModel,
    pub cafe: RoomModel,
    pub pod: RoomModel,
    pub alleyway2: RoomModel,
    pub deep_dive: DiveModel,
}

impl View for StateCollection {
    type V = StatesModel;

    open spec fn view(&self) -> StatesModel {
        StatesModel {
            game_progress: self.game_progress,
            intro: self.intro_state@,
            end: self.end_state@,
            helionix: self.helionix_state@,
            fusiogenic: self.fusiogenic_state@,
            tech_shop: self.tech_shop_state@,
            alleyway: self.alleyway_state@,
            cyberway: self.cyberway_state@,
            parts_shop: self.parts_shop_state@,
            cafe: self.cafe_state@,
            pod: self.pod_state@,
            alleyway2: self.alleyway2_state@,
            deep_dive: self.deep_dive_state@,
        }
    }
}

/// The game: the current room, the room asked for, and everything the rooms
/// and the story keep.
#[derive(Clone, Debug)]
pub struct Game {
    /// The room that is being played.
    pub current_state: RoomKind,
    /// The room that was asked for last.
    pub next_state: RoomKind,
    /// A room has been asked for since the last transition check.
    pub next_changed: bool,
    /// The rooms and the stage of the story.
    pub states: StateCollection,
    /// 0 until a dive has first ended at a portal, 1 from then on.
    pub deep_dive_data_bank: u32,
}

/// The mathematical content of a [`Game`].
pub struct GameModel {
    pub current: RoomKind,
    pub next: RoomKind,
    pub next_changed: bool,
    pub states: StatesModel,
    pub data_bank: int,
}

impl View for Game {
    type V = GameModel;

    open spec fn view(&self) -> GameModel {
        GameModel {
            current: self.current_state,
            next: self.next_state,
            next_changed: self.next_changed,
            states: self.states@,
            data_bank: self.deep_dive_data_bank as int,
        }
    }
}

/// The rooms before any has been opened.
pub open spec fn states_unopened() -> StatesModel {
    StatesModel {
        game_progress: GameProgress::Start,
        intro: story_unopened(),
        end: story_unopened(),
        helionix: story_unopened(),
        fusiogenic: story_unopened(),
        tech_shop: room_unopened(RoomKind::TechShop),
        alleyway: room_unopened(RoomKind::Alleyway),
        cyberway: room_unopened(RoomKind::Cyberway),
        parts_shop: room_unopened(RoomKind::PartsShop),
        cafe: room_unopened(RoomKind::Cafe),
        pod: room_unopened(RoomKind::Pod),
        alleyway2: room_unopened(RoomKind::Alleyway2),
        deep_dive: dive_unopened(),
    }
}

/// The game before its first tick: the intro is current, nothing is asked for.
pub open spec fn game_unopened() -> GameModel {
    GameModel {
        current: RoomKind::Intro,
        next: RoomKind::Intro,
        next_changed: false,
        states: states_unopened(),
        data_bank: 0,
    }
}

/// The stage of the story as room `kind` holds it.
pub open spec fn room_progress(s: StatesModel, kind: RoomKind) -> GameProgress {
    match kind {
        RoomKind::Intro => s.intro.check_progress,
        RoomKind::End => s.end.check_progress,
        RoomKind::Helionix => s.helionix.check_progress,
        RoomKind::Fusiogenic => s.fusiogenic.check_progress,
        RoomKind::TechShop => s.tech_shop.check_progress,
        RoomKind::Alleyway => s.alleyway.check_progress,
        RoomKind::Cyberway => s.cyberway.check_progress,
        RoomKind::PartsShop => s.parts_shop.check_progress,
        RoomKind::Cafe => s.cafe.check_progress,
        RoomKind::Pod => s.pod.check_progress,
        RoomKind::Alleyway2 => s.alleyway2.check_progress,
        RoomKind::DeepDive => s.deep_dive.check_progress,
    }
}

/// The rooms after room `kind` has closed: the room is closed, and the stage
/// it hands back is the stage of the story.
pub open spec fn close_room(s: StatesModel, kind: RoomKind) -> StatesModel {
    match kind {
        RoomKind::Intro => StatesModel {
            game_progress: s.intro.check_progress,
            intro: story_closed(s.intro),
            ..s
        },
        RoomKind::End => StatesModel {
            game_progress: s.end.check_progress,
            end: story_closed(s.end),
            ..s
        },
        RoomKind::Helionix => StatesModel {
            game_progress: s.helionix.check_progress,
            helionix: story_closed(s.helionix),
            ..s
        },
        RoomKind::Fusiogenic => StatesModel {
            game_progress: s.fusiogenic.check_progress,
            fusiogenic: story_closed(s.fusiogenic),
            ..s
        },
        RoomKind::TechShop => StatesModel {
            game_progress: room_closed(s.tech_shop).check_progress,
            tech_shop: room_closed(s.tech_shop),
            ..s
        },
        RoomKind::Alleyway => StatesModel {
            game_progress: room_closed(s.alleyway).check_progress,
            alleyway: room_closed(s.alleyway),
            ..s
        },
        RoomKind::Cyberway => StatesModel {
            game_progress: room_closed(s.cyberway).check_progress,
            cyberway: room_closed(s.cyberway),
            ..s
        },
        RoomKind::PartsShop => StatesModel {
            game_progress: room_closed(s.parts_shop).check_progress,
            parts_shop: room_closed(s.parts_shop),
            ..s
        },
        RoomKind::Cafe => StatesModel {
            game_progress: room_closed(s.cafe).check_progress,
            cafe: room_closed(s.cafe),
            ..s
        },
        RoomKind::Pod => StatesModel {
            game_progress: room_closed(s.pod).check_progress,
            pod: room_closed(s.pod),
            ..s
        },
        RoomKind::Alleyway2 => StatesModel {
            game_progress: room_closed(s.alleyway2).check_progress,
            alleyway2: room_closed(s.alleyway2),
            ..s
        },
        RoomKind::DeepDive => StatesModel {
            game_progress: s.deep_dive.check_progress,
            deep_dive: dive_closed(s.deep_dive),
            ..s
        },
    }
}

/// The rooms after room `kind` has opened in the stage of the story, with
/// the player at `spawn` and with `source` as the text that the room reads.
pub open spec fn start_room(s: StatesModel, kind: RoomKind, spawn: i32, source: Seq<char>) -> StatesModel {
    let p = s.game_progress;
    match kind {
        RoomKind::Intro => StatesModel { intro: story_started(s.intro, p, source), ..s },
        RoomKind::End => StatesModel { end: story_started(s.end, p, source), ..s },
        RoomKind::Helionix => StatesModel { helionix: story_started(s.helionix, p, source), ..s },
        RoomKind::Fusiogenic => StatesModel {
            fusiogenic: story_started(s.fusiogenic, p, source),
            ..s
        },
        RoomKind::TechShop => StatesModel { tech_shop: room_started(s.tech_shop, p, spawn), ..s },
        RoomKind::Alleyway => StatesModel { alleyway: room_started(s.alleyway, p, spawn), ..s },
        RoomKind::Cyberway => StatesModel { cyberway: room_started(s.cyberway, p, spawn), ..s },
        RoomKind::PartsShop => StatesModel { parts_shop: room_started(s.parts_shop, p, spawn), ..s },
        RoomKind::Cafe => StatesModel { cafe: room_started(s.cafe, p, spawn), ..s },
        RoomKind::Pod => StatesModel { pod: room_started(s.pod, p, spawn), ..s },
        RoomKind::Alleyway2 => StatesModel { alleyway2: room_started(s.alleyway2, p, spawn), ..s },
        RoomKind::DeepDive => StatesModel { deep_dive: dive_started(s.deep_dive, p, source), ..s },
    }
}

/// Whether the way from room to room is the end of a dive at the portal.
pub open spec fn is_dive_return(from: RoomKind, to: RoomKind) -> bool {
    from == RoomKind::DeepDive && to == RoomKind::Pod
}

/// The room in which a way from room to room ends. The way back from a dive
/// ends in the pod room, except for the holder of the final key: that dive is
/// the last, and its way back ends in the end.
pub open spec fn arrival(from: RoomKind, to: RoomKind, progress: GameProgress) -> RoomKind {
    if is_dive_return(from, to) && progress == GameProgress::GetFinalKey {
        RoomKind::End
    } else {
        to
    }
}

/// The rooms at the moment between the close of the room that is left and the
/// start of the room that is entered: the room that is left is closed, the way
/// back from a dive has turned a key into its data, and a dive that is entered
/// from its prelude begins at its first level.
pub open spec fn between_rooms(g: GameModel) -> StatesModel {
    let closed = close_room(g.states, g.current);
    let staged = StatesModel {
        game_progress: if is_dive_return(g.current, g.next) {
            closed.game_progress.spec_after_dive()
        } else {
            closed.game_progress
        },
        ..closed
    };
    if g.next == RoomKind::DeepDive && g.current != RoomKind::DeepDive {
        StatesModel { deep_dive: DiveModel { level: 0, ..staged.deep_dive }, ..staged }
    } else {
        staged
    }
}

/// The room that the next transition check enters, if it enters one: a room
/// has been asked for since the last check, and the table knows a way to it.
pub open spec fn transition_target(g: GameModel) -> Option<RoomKind> {
    if g.next_changed && spec_spawn_x(g.current, g.next) is Some {
        Some(arrival(g.current, g.next, close_room(g.states, g.current).game_progress))
    } else {
        None
    }
}

/// The text that starting room `kind` reads, by its path below the asset
/// root: the story of a story room, the map of the dive's level. A walking
/// room reads none.
pub open spec fn start_resource(s: StatesModel, kind: RoomKind, data_bank: int) -> Option<Seq<char>> {
    if kind.spec_is_story() {
        Some(spec_story_path(kind))
    } else if kind == RoomKind::DeepDive {
        Some(spec_map_path(data_bank as nat, s.deep_dive.level as nat))
    } else {
        None
    }
}

/// The text that the next transition check reads, if it reads one.
pub open spec fn transition_resource(g: GameModel) -> Option<Seq<char>> {
    match transition_target(g) {
        Some(kind) => start_resource(between_rooms(g), kind, g.data_bank),
        None => None,
    }
}

/// The transition check. A request is looked at once: the check that sees it
/// also forgets it. A request for which the table knows no way changes nothing
/// else. A request with a way closes the current room, takes the stage of the
/// story from it, and starts the room in which the way ends.
pub open spec fn transition(g: GameModel, source: Seq<char>) -> GameModel {
    match transition_target(g) {
        Some(kind) => GameModel {
            current: kind,
            next_changed: false,
            states: start_room(
                between_rooms(g),
                kind,
                spec_spawn_x(g.current, g.next)->0,
                source,
            ),
            ..g
        },
        None => GameModel { next_changed: false, ..g },
    }
}

/// The game after its first room has been started.
pub open spec fn initial_start(g: GameModel, source: Seq<char>) -> GameModel {
    GameModel {
        states: start_room(
            g.states,
            g.current,
            spec_default_spawn_x(g.current) as i32,
            source,
        ),
        ..g
    }
}

/// The walking room `kind`, if `kind` is a walking room.
pub open spec fn walking_room(s: StatesModel, kind: RoomKind) -> Option<RoomModel> {
    match kind {
        RoomKind::TechShop => Some(s.tech_shop),
        RoomKind::Alleyway => Some(s.alleyway),
        RoomKind::Cyberway => Some(s.cyberway),
        RoomKind::PartsShop => Some(s.parts_shop),
        RoomKind::Cafe => Some(s.cafe),
        RoomKind::Pod => Some(s.pod),
        RoomKind::Alleyway2 => Some(s.alleyway2),
        _ => None,
    }
}

/// The story room `kind`, if `kind` is a story room.
pub open spec fn story_room(s: StatesModel, kind: RoomKind) -> Option<StoryModel> {
    match kind {
        RoomKind::Intro => Some(s.intro),
        RoomKind::End => Some(s.end),
        RoomKind::Helionix => Some(s.helionix),
        RoomKind::Fusiogenic => Some(s.fusiogenic),
        _ => None,
    }
}

/// The script that the next tick of the current room reads, if it reads one.
pub open spec fn run_resource(g: GameModel, input: TickInput) -> Option<Seq<char>> {
    match walking_room(g.states, g.current) {
        Some(room) => dialog_request(room, input),
        None => None,
    }
}

/// The room that the tick of room `kind` asks for, if it asks for one.
pub open spec fn run_request(
    s: StatesModel,
    kind: RoomKind,
    data_bank: int,
    input: TickInput,
    source: Seq<char>,
) -> Option<RoomKind> {
    if kind == RoomKind::DeepDive {
        dive_step(s.deep_dive, data_bank, input).request
    } else if kind.spec_is_story() {
        if story_finished(story_room(s, kind)->0, input) {
            spec_story_exit(kind)
        } else {
            None
        }
    } else {
        room_request(walking_room(s, kind)->0, input, source)
    }
}

/// The rooms after the tick of room `kind`.
pub open spec fn run_states(
    s: StatesModel,
    kind: RoomKind,
    data_bank: int,
    input: TickInput,
    source: Seq<char>,
) -> StatesModel {
    match kind {
        RoomKind::Intro => StatesModel { intro: story_step(s.intro, input), ..s },
        RoomKind::End => StatesModel { end: story_step(s.end, input), ..s },
        RoomKind::Helionix => StatesModel { helionix: story_step(s.helionix, input), ..s },
        RoomKind::Fusiogenic => StatesModel { fusiogenic: story_step(s.fusiogenic, input), ..s },
        RoomKind::TechShop => StatesModel { tech_shop: room_step(s.tech_shop, input, source), ..s },
        RoomKind::Alleyway => StatesModel { alleyway: room_step(s.alleyway, input, source), ..s },
        RoomKind::Cyberway => StatesModel { cyberway: room_step(s.cyberway, input, source), ..s },
        RoomKind::PartsShop => StatesModel {
            parts_shop: room_step(s.parts_shop, input, source),
            ..s
        },
        RoomKind::Cafe => StatesModel { cafe: room_step(s.cafe, input, source), ..s },
        RoomKind::Pod => StatesModel { pod: room_step(s.pod, input, source), ..s },
        RoomKind::Alleyway2 => StatesModel { alleyway2: room_step(s.alleyway2, input, source), ..s },
        RoomKind::DeepDive => StatesModel {
            deep_dive: dive_step(s.deep_dive, data_bank, input).dive,
            ..s
        },
    }
}

/// The data bank after the tick of room `kind`: only the dive fills it.
pub open spec fn run_bank(s: StatesModel, kind: RoomKind, data_bank: int, input: TickInput) -> int {
    if kind == RoomKind::DeepDive {
        dive_step(s.deep_dive, data_bank, input).data_bank
    } else {
        data_bank
    }
}

/// The tick of the current room. A room that is asked for is noted, for the
/// next transition check to see.
pub open spec fn run_step(g: GameModel, input: TickInput, source: Seq<char>) -> GameModel {
    let request = run_request(g.states, g.current, g.data_bank, input, source);
    GameModel {
        next: if request is Some {
            request->0
        } else {
            g.next
        },
        next_changed: g.next_changed || request is Some,
        states: run_states(g.states, g.current, g.data_bank, input, source),
        data_bank: run_bank(g.states, g.current, g.data_bank, input),
        ..g
    }
}

/// Whether the game hangs together: each walking room knows which room it
/// is, and the current room holds the stage of the story.
pub open spec fn game_wf(g: GameModel) -> bool {
    &&& g.states.tech_shop.kind == RoomKind::TechShop
    &&& g.states.alleyway.kind == RoomKind::Alleyway
    &&& g.states.cyberway.kind == RoomKind::Cyberway
    &&& g.states.parts_shop.kind == RoomKind::PartsShop
    &&& g.states.cafe.kind == RoomKind::Cafe
    &&& g.states.pod.kind == RoomKind::Pod
    &&& g.states.alleyway2.kind == RoomKind::Alleyway2
    &&& room_progress(g.states, g.current) == g.states.game_progress
}

/// Whether each walking room of `a` is the room that it is in `b`.
pub open spec fn same_kinds(a: StatesModel, b: StatesModel) -> bool {
    &&& a.tech_shop.kind == b.tech_shop.kind
    &&& a.alleyway.kind == b.alleyway.kind
    &&& a.cyberway.kind == b.cyberway.kind
    &&& a.parts_shop.kind == b.parts_shop.kind
    &&& a.cafe.kind == b.cafe.kind
    &&& a.pod.kind == b.pod.kind
    &&& a.alleyway2.kind == b.alleyway2.kind
}

impl StateCollection {
    /// The rooms before any has been opened.
    pub fn new() -> (states: StateCollection)
        ensures
            states@ == states_unopened(),
    {
        StateCollection {
            game_progress: GameProgress::Start,
            intro_state: StoryState::new(),
            end_state: StoryState::new(),
            helionix_state: StoryState::new(),
            fusiogenic_state: StoryState::new(),
            tech_shop_state: RoomState::new(RoomKind::TechShop),
            alleyway_state: RoomState::new(RoomKind::Alleyway),
            cyberway_state: RoomState::new(RoomKind::Cyberway),
            parts_shop_state: RoomState::new(RoomKind::PartsShop),
            cafe_state: RoomState::new(RoomKind::Cafe),
            pod_state: RoomState::new(RoomKind::Pod),
            alleyway2_state: RoomState::new(RoomKind::Alleyway2),
            deep_dive_state: DeepDiveState::new(),
        }
    }

    /// Closes room `kind` and makes the stage that it hands back the stage of
    /// the story.
    pub fn close(&mut self, kind: RoomKind)
        ensures
            final(self)@ == close_room(old(self)@, kind),
    {
        let progress: GameProgress = match kind {
            RoomKind::Intro => self.intro_state.close(),
            RoomKind::End => self.end_state.close(),
            RoomKind::Helionix => self.helionix_state.close(),
            RoomKind::Fusiogenic => self.fusiogenic_state.close(),
            RoomKind::TechShop => self.tech_shop_state.close(),
            RoomKind::Alleyway => self.alleyway_state.close(),
            RoomKind::Cyberway => self.cyberway_state.close(),
            RoomKind::PartsShop => self.parts_shop_state.close(),
            RoomKind::Cafe => self.cafe_state.close(),
            RoomKind::Pod => self.pod_state.close(),
            RoomKind::Alleyway2 => self.alleyway2_state.close(),
            RoomKind::DeepDive => self.deep_dive_state.close(),
        };
        self.game_progress = progress;
    }

    /// Opens room `kind` in the stage of the story, with the player at
    /// `spawn`. `source` is the text named by [`StateCollection::resource`].
    pub fn start(&mut self, kind: RoomKind, spawn: i32, source: &str)
        requires
            kind == RoomKind::DeepDive ==> source@.len() <= MAX_MAP_CHARS,
        ensures
            final(self)@ == start_room(old(self)@, kind, spawn, source@),
    {
        let progress: GameProgress = self.game_progress;
        match kind {
            RoomKind::Intro => self.intro_state.start(progress, source),
            RoomKind::End => self.end_state.start(progress, source),
            RoomKind::Helionix => self.helionix_state.start(progress, source),
            RoomKind::Fusiogenic => self.fusiogenic_state.start(progress, source),
            RoomKind::TechShop => self.tech_shop_state.start(progress, spawn),
            RoomKind::Alleyway => self.alleyway_state.start(progress, spawn),
            RoomKind::Cyberway => self.cyberway_state.start(progress, spawn),
            RoomKind::PartsShop => self.parts_shop_state.start(progress, spawn),
            RoomKind::Cafe => self.cafe_state.start(progress, spawn),
            RoomKind::Pod => self.pod_state.start(progress, spawn),
            RoomKind::Alleyway2 => self.alleyway2_state.start(progress, spawn),
            RoomKind::DeepDive => self.deep_dive_state.start(progress, source),
        }
    }

    /// One tick of the story room `kind`.
    fn run_story(&mut self, kind: RoomKind, input: &TickInput) -> (request: Option<RoomKind>)
        requires
            kind.spec_is_story(),
        ensures
            final(self)@ == run_states(old(self)@, kind, 0, *input, Seq::empty()),
            request == run_request(old(self)@, kind, 0, *input, Seq::empty()),
    {
        let finished: bool = match kind {
            RoomKind::Intro => self.intro_state.run(input),
            RoomKind::End => self.end_state.run(input),
            RoomKind::Helionix => self.helionix_state.run(input),
            _ => self.fusiogenic_state.run(input),
        };
        if finished {
            story_exit(kind)
        } else {
            None
        }
    }

    /// One tick of the walking room `kind`.
    fn run_walk(&mut self, kind: RoomKind, input: &TickInput, source: &str) -> (request: Option<
        RoomKind,
    >)
        requires
            kind.spec_is_walkable(),
        ensures
            final(self)@ == run_states(old(self)@, kind, 0, *input, source@),
            request == run_request(old(self)@, kind, 0, *input, source@),
    {
        match kind {
            RoomKind::TechShop => self.tech_shop_state.run(input, source),
            RoomKind::Alleyway => self.alleyway_state.run(input, source),
            RoomKind::Cyberway => self.cyberway_state.run(input, source),
            RoomKind::PartsShop => self.parts_shop_state.run(input, source),
            RoomKind::Cafe => self.cafe_state.run(input, source),
            RoomKind::Pod => self.pod_state.run(input, source),
            _ => self.alleyway2_state.run(input, source),
        }
    }

    /// One tick of room `kind`. `source` is the script that the tick reads,
    /// if it reads one; `data_bank` is the game's data bank, which only the dive
    /// fills. Returns the room asked for, if any.
    pub fn run(
        &mut self,
        kind: RoomKind,
        input: &TickInput,
        source: &str,
        data_bank: &mut u32,
    ) -> (request: Option<RoomKind>)
        requires
            kind == RoomKind::DeepDive ==> in_world(old(self).deep_dive_state.player),
        ensures
            final(self)@ == run_states(old(self)@, kind, *old(data_bank) as int, *input, source@),
            *final(data_bank) == run_bank(old(self)@, kind, *old(data_bank) as int, *input),
            request == run_request(old(self)@, kind, *old(data_bank) as int, *input, source@),
    {
        if kind.is_story() {
            self.run_story(kind, input)
        } else if kind.is_walkable() {
            self.run_walk(kind, input, source)
        } else {
            self.deep_dive_state.run(input, data_bank)
        }
    }

    /// The text that starting room `kind` reads, by its path below the asset
    /// root, or `None` if it reads none.
    pub fn resource(&self, kind: RoomKind, data_bank: u32) -> (path: Option<String>)
        ensures
            path is Some == start_resource(self@, kind, data_bank as int) is Some,
            path matches Some(p) ==> p@ == start_resource(self@, kind, data_bank as int)->0,
    {
        if kind.is_story() {
            Some(story_path(kind))
        } else {
            match kind {
                RoomKind::DeepDive => Some(map_path(data_bank, self.deep_dive_state.level)),
                _ => None,
            }
        }
    }
}

impl Game {
    /// The game before its first tick.
    pub fn new() -> (game: Game)
        ensures
            game@ == game_unopened(),
            game_wf(game@),
    {
        Game {
            current_state: RoomKind::Intro,
            next_state: RoomKind::Intro,
            next_changed: false,
            states: StateCollection::new(),
            deep_dive_data_bank: 0,
        }
    }

    /// The text that [`Game::start_initial_state`] reads, by its path below
    /// the asset root, or `None` if it reads none.
    pub fn initial_resource(&self) -> (path: Option<String>)
        ensures
            path is Some == start_resource(
                self@.states,
                self@.current,
                self@.data_bank,
            ) is Some,
            path matches Some(p) ==> p@ == start_resource(
                self@.states,
                self@.current,
                self@.data_bank,
            )->0,
    {
        self.states.resource(self.current_state, self.deep_dive_data_bank)
    }

    /// Starts the current room, as the first thing the game does. `source`
    /// is the text named by [`Game::initial_resource`].
    pub fn start_initial_state(&mut self, source: &str)
        requires
            old(self).current_state == RoomKind::DeepDive ==> source@.len() <= MAX_MAP_CHARS,
        ensures
            final(self)@ == initial_start(old(self)@, source@),
            game_wf(old(self)@) ==> game_wf(final(self)@),
    {
        proof {
            lemma_start_room(
                old(self)@.states,
                old(self)@.current,
                spec_default_spawn_x(old(self)@.current) as i32,
                source@,
            );
        }
        let kind: RoomKind = self.current_state;
        self.states.start(kind, default_spawn_x(kind), source);
    }

    /// The room that the next call of [`Game::manage_state_changes`] enters,
    /// or `None` if it enters none.
    pub fn transition_wanted(&self) -> (target: Option<RoomKind>)
        ensures
            target == transition_target(self@),
    {
        if !self.next_changed {
            return None;
        }
        match spawn_x(self.current_state, self.next_state) {
            None => None,
            Some(_) => {
                let returned: GameProgress = self.closing_progress();
                let back: bool = match (self.current_state, self.next_state) {
                    (RoomKind::DeepDive, RoomKind::Pod) => true,
                    _ => false,
                };
                if back && returned.is_final_key() {
                    Some(RoomKind::End)
                } else {
                    Some(self.next_state)
                }
            },
        }
    }

    /// The stage of the story that the current room would hand back if it
    /// closed now.
    pub fn closing_progress(&self) -> (progress: GameProgress)
        ensures
            progress == close_room(self@.states, self@.current).game_progress,
    {
        match self.current_state {
            RoomKind::Intro => self.states.intro_state.check_progress,
            RoomKind::End => self.states.end_state.check_progress,
            RoomKind::Helionix => self.states.helionix_state.check_progress,
            RoomKind::Fusiogenic => self.states.fusiogenic_state.check_progress,
            RoomKind::TechShop => self.states.tech_shop_state.closing_progress(),
            RoomKind::Alleyway => self.states.alleyway_state.closing_progress(),
            RoomKind::Cyberway => self.states.cyberway_state.closing_progress(),
            RoomKind::PartsShop => self.states.parts_shop_state.closing_progress(),
            RoomKind::Cafe => self.states.cafe_state.closing_progress(),
            RoomKind::Pod => self.states.pod_state.closing_progress(),
            RoomKind::Alleyway2 => self.states.alleyway2_state.closing_progress(),
            RoomKind::DeepDive => self.states.deep_dive_state.check_progress,
        }
    }

    /// The text that the next call of [`Game::manage_state_changes`] reads,
    /// by its path below the asset root, or `None` if it reads none.
    pub fn transition_resource_wanted(&self) -> (path: Option<String>)
        ensures
            path is Some == transition_resource(self@) is Some,
            path matches Some(p) ==> p@ == transition_resource(self@)->0,
    {
        match self.transition_wanted() {
            None => None,
            Some(kind) => {
                if kind.is_story() {
                    Some(story_path(kind))
                } else {
                    match kind {
                        RoomKind::DeepDive => {
                            let level: u32 = match self.current_state {
                                RoomKind::DeepDive => self.states.deep_dive_state.level,
                                _ => 0,
                            };
                            Some(map_path(self.deep_dive_data_bank, level))
                        },
                        _ => None,
                    }
                }
            },
        }
    }

    /// The transition check: the first step of every tick.
    ///
    /// A request made since the last check is looked at, and forgotten. If
    /// the table knows a way from the current room to the room asked for, the
    /// current room is closed, the stage it hands back becomes the stage of the
    /// story, and the room at the end of the way is started and becomes the
    /// current room. The way back from a dive turns the first and the second
    /// key into their data, and leads the holder of the final key to the end.
    /// A request without a way is dropped, and nothing else changes.
    ///
    /// `source` is the text named by [`Game::transition_resource_wanted`].
    /// Returns the room that was entered, if one was.
    pub fn manage_state_changes(&mut self, source: &str) -> (entered: Option<RoomKind>)
        requires
            transition_target(old(self)@) == Some(RoomKind::DeepDive) ==> source@.len()
                <= MAX_MAP_CHARS,
        ensures
            final(self)@ == transition(old(self)@, source@),
            entered == transition_target(old(self)@),
            game_wf(old(self)@) ==> game_wf(final(self)@),
            game_wf(old(self)@) ==> final(self).states.game_progress.rank() >= old(
                self,
            ).states.game_progress.rank(),
    {
        proof {
            if game_wf(old(self)@) {
                lemma_transition_moves_forward(old(self)@, source@);
            }
        }
        let target: Option<RoomKind> = self.transition_wanted();
        self.next_changed = false;
        match target {
            None => None,
            Some(kind) => {
                let from: RoomKind = self.current_state;
                let spawn: i32 = match spawn_x(from, self.next_state) {
                    Some(x) => x,
                    None => 0,
                };
                self.states.close(from);
                let back: bool = match (from, self.next_state) {
                    (RoomKind::DeepDive, RoomKind::Pod) => true,
                    _ => false,
                };
                if back {
                    self.states.game_progress = self.states.game_progress.after_dive();
                }
                let entering_dive: bool = match (from, self.next_state) {
                    (RoomKind::DeepDive, _) => false,
                    (_, RoomKind::DeepDive) => true,
                    _ => false,
                };
                if entering_dive {
                    self.states.deep_dive_state.level = 0;
                }
                proof {
                    assert(self.states@ == between_rooms(old(self)@));
                }
                self.current_state = kind;
                self.states.start(kind, spawn, source);
                Some(kind)
            },
        }
    }

    /// The script that the next call of [`Game::run_current_game_state`]
    /// with `input` reads, by its path below the asset root, or `None` if it
    /// reads none.
    pub fn dialog_wanted(&self, input: &TickInput) -> (path: Option<String>)
        ensures
            path is Some == run_resource(self@, *input) is Some,
            path matches Some(p) ==> p@ == run_resource(self@, *input)->0,
    {
        match self.current_state {
            RoomKind::TechShop => self.states.tech_shop_state.dialog_wanted(input),
            RoomKind::Alleyway => self.states.alleyway_state.dialog_wanted(input),
            RoomKind::Cyberway => self.states.cyberway_state.dialog_wanted(input),
            RoomKind::PartsShop => self.states.parts_shop_state.dialog_wanted(input),
            RoomKind::Cafe => self.states.cafe_state.dialog_wanted(input),
            RoomKind::Pod => self.states.pod_state.dialog_wanted(input),
            RoomKind::Alleyway2 => self.states.alleyway2_state.dialog_wanted(input),
            _ => None,
        }
    }

    /// Whether the game can take the tick of its current room: outside the
    /// dive always, inside it while the player is within the world's limit.
    pub fn can_run(&self) -> (ready: bool)
        ensures
            ready == (self.current_state == RoomKind::DeepDive ==> in_world(
                self.states.deep_dive_state.player,
            )),
    {
        match self.current_state {
            RoomKind::DeepDive => self.states.deep_dive_state.player_in_world(),
            _ => true,
        }
    }

    /// The tick of the current room: the second step of every tick.
    ///
    /// `source` is the text named by [`Game::dialog_wanted`] for this tick.
    /// A room that the tick asks for is noted for the next transition check.
    /// The stage of the story does not change.
    pub fn run_current_game_state(&mut self, input: &TickInput, source: &str)
        requires
            old(self).current_state == RoomKind::DeepDive ==> in_world(
                old(self).states.deep_dive_state.player,
            ),
        ensures
            final(self)@ == run_step(old(self)@, *input, source@),
            final(self).states.game_progress == old(self).states.game_progress,
            game_wf(old(self)@) ==> game_wf(final(self)@),
    {
        proof {
            lemma_run_keeps_progress(old(self)@, *input, source@);
        }
        let request: Option<RoomKind> = self.states.run(
            self.current_state,
            input,
            source,
            &mut self.deep_dive_data_bank,
        );
        match request {
            Some(room) => {
                self.next_state = room;
                self.next_changed = true;
            },
            None => {},
        }
    }

    /// Asks for a room, as a tick of the current room would.
    pub fn request(&mut self, room: RoomKind)
        ensures
            final(self)@ == (GameModel { next: room, next_changed: true, ..old(self)@ }),
    {
        self.next_state = room;
        self.next_changed = true;
    }
}

/// Closing a room never lowers the stage of the story that the room holds,
/// raises it by one rung at most, and leaves every room the room it is.
pub proof fn lemma_close_room(s: StatesModel, kind: RoomKind)
    ensures
        close_room(s, kind).game_progress.rank() >= room_progress(s, kind).rank(),
        close_room(s, kind).game_progress.rank() <= room_progress(s, kind).rank() + 1,
        same_kinds(close_room(s, kind), s),
{
    match kind {
        RoomKind::TechShop => lemma_room_closed(s.tech_shop),
        RoomKind::Alleyway => lemma_room_closed(s.alleyway),
        RoomKind::Cyberway => lemma_room_closed(s.cyberway),
        RoomKind::PartsShop => lemma_room_closed(s.parts_shop),
        RoomKind::Cafe => lemma_room_closed(s.cafe),
        RoomKind::Pod => lemma_room_closed(s.pod),
        RoomKind::Alleyway2 => lemma_room_closed(s.alleyway2),
        _ => {},
    }
}

/// Starting a room hands it the stage of the story, and leaves the stage
/// and every room the room it is.
pub proof fn lemma_start_room(s: StatesModel, kind: RoomKind, spawn: i32, source: Seq<char>)
    ensures
        room_progress(start_room(s, kind, spawn, source), kind) == s.game_progress,
        start_room(s, kind, spawn, source).game_progress == s.game_progress,
        same_kinds(start_room(s, kind, spawn, source), s),
{
}

/// The story only moves forward. For a game that hangs together, a
/// transition check leaves the game hanging together, never lowers the stage
/// of the story, and raises it by one rung at most.
pub proof fn lemma_transition_moves_forward(g: GameModel, source: Seq<char>)
    requires
        game_wf(g),
    ensures
        game_wf(transition(g, source)),
        transition(g, source).states.game_progress.rank() >= g.states.game_progress.rank(),
        transition(g, source).states.game_progress.rank() <= g.states.game_progress.rank() + 1,
{
    match transition_target(g) {
        Some(kind) => {
            lemma_close_room(g.states, g.current);
            let closed = close_room(g.states, g.current);
            lemma_ladder_moves_forward(closed.game_progress);
            let between = between_rooms(g);
            assert(same_kinds(between, g.states));
            lemma_start_room(between, kind, spec_spawn_x(g.current, g.next)->0, source);
            if is_dive_return(g.current, g.next) {
                assert(g.current == RoomKind::DeepDive);
                assert(closed.game_progress == g.states.deep_dive.check_progress);
            }
        },
        None => {},
    }
}

/// The tick of a room leaves the stage of the story alone, and leaves a game
/// that hangs together hanging together.
pub proof fn lemma_run_keeps_progress(g: GameModel, input: TickInput, source: Seq<char>)
    ensures
        run_step(g, input, source).states.game_progress == g.states.game_progress,
        game_wf(g) ==> game_wf(run_step(g, input, source)),
{
    lemma_run_states(g, input, source);
}

/// The tick of a room changes neither which room a room is nor the stage
/// of the story that any room holds.
pub proof fn lemma_run_states(g: GameModel, input: TickInput, source: Seq<char>)
    ensures
        same_kinds(run_states(g.states, g.current, g.data_bank, input, source), g.states),
        run_states(g.states, g.current, g.data_bank, input, source).game_progress
            == g.states.game_progress,
        room_progress(
            run_states(g.states, g.current, g.data_bank, input, source),
            g.current,
        ) == room_progress(g.states, g.current),
{
    let s = g.states;
    match g.current {
        RoomKind::TechShop => lemma_room_step_keeps(s.tech_shop, input, source),
        RoomKind::Alleyway => lemma_room_step_keeps(s.alleyway, input, source),
        RoomKind::Cyberway => lemma_room_step_keeps(s.cyberway, input, source),
        RoomKind::PartsShop => lemma_room_step_keeps(s.parts_shop, input, source),
        RoomKind::Cafe => lemma_room_step_keeps(s.cafe, input, source),
        RoomKind::Pod => lemma_room_step_keeps(s.pod, input, source),
        RoomKind::Alleyway2 => lemma_room_step_keeps(s.alleyway2, input, source),
        RoomKind::DeepDive => lemma_dive_step_keeps(s.deep_dive, g.data_bank, input),
        _ => {},
    }
}

/// A tick that names no script does not look at `source`: whatever text is
/// handed in, the game after the tick is the same.
pub proof fn lemma_run_ignores_source(g: GameModel, input: TickInput, a: Seq<char>, b: Seq<char>)
    requires
        run_resource(g, input) is None,
    ensures
        run_step(g, input, a) == run_step(g, input, b),
{
    let s = g.states;
    match g.current {
        RoomKind::TechShop => lemma_room_step_ignores_source(s.tech_shop, input, a, b),
        RoomKind::Alleyway => lemma_room_step_ignores_source(s.alleyway, input, a, b),
        RoomKind::Cyberway => lemma_room_step_ignores_source(s.cyberway, input, a, b),
        RoomKind::PartsShop => lemma_room_step_ignores_source(s.parts_shop, input, a, b),
        RoomKind::Cafe => lemma_room_step_ignores_source(s.cafe, input, a, b),
        RoomKind::Pod => lemma_room_step_ignores_source(s.pod, input, a, b),
        RoomKind::Alleyway2 => lemma_room_step_ignores_source(s.alleyway2, input, a, b),
        _ => {},
    }
}

/// The end has one door. The way back from a dive is the only way that ends
/// in another room than the one asked for; it ends in the end, and it does so
/// exactly for the holder of the final key.
pub proof fn lemma_end_has_one_door(g: GameModel)
    requires
        game_wf(g),
        transition_target(g) is Some,
    ensures
        transition_target(g)->0 != g.next <==> (is_dive_return(g.current, g.next)
            && g.states.game_progress == GameProgress::GetFinalKey),
        transition_target(g)->0 != g.next ==> transition_target(g)->0 == RoomKind::End,
{
    if is_dive_return(g.current, g.next) {
        assert(close_room(g.states, g.current).game_progress == g.states.deep_dive.check_progress);
    }
}

} // verus!
