//! The deep dive: a dungeon of square tiles that the player crosses one tile
//! per tick, and the rules by which tiles end, restart or advance the dive.

use vstd::prelude::*;
use vstd::seq_lib::{lemma_seq_concat_contains_all_elements, lemma_seq_contains_after_push};
use crate::actor::{Actor, TickInput};
use crate::geometry::{collide, squares_overlap};
use crate::kind::RoomKind;
use crate::progress::GameProgress;
use crate::text::{
    decimal, decimal_text, lemma_lines_fit, lines_view, read_lines, split_lines,
};

verus! {

/// Side of a tile, and the length of one step of the player.
pub const DEEP_DIVE_TILE_SCALE: i32 = 64;

/// Side of a tile as the side of a square.
pub const TILE_SIDE: u16 = 64;

/// Number of the last level of a dive.
pub const LAST_LEVEL: u32 = 2;

/// Greatest value of the data bank.
pub const FULL_BANK: u32 = 1;

/// Greatest number of characters of a map. It keeps every tile within
/// [`WORLD_LIMIT`] of the origin.
pub const MAX_MAP_CHARS: usize = 0x100_0000;

/// Greatest distance from the origin, along either axis, at which a tile can
/// lie and from which the player can take a step.
pub const WORLD_LIMIT: i32 = 0x4000_0000;

/// What a tile does to a player who steps on it.
#[derive(Clone, Copy, Debug, PartialEq, Eq, Structural)]
pub enum TileKind {
    /// Blocks the step.
    Wall,
    /// Restarts the level.
    Lava,
    /// Leads to the next level.
    DataPort,
    /// Ends the dive.
    Portal,
}

/// A tile of the dungeon, by its kind and its centre.
#[derive(Clone, Copy, Debug, PartialEq, Eq, Structural)]
pub struct Tile {
    pub kind: TileKind,
    pub x: i32,
    pub y: i32,
}

/// The tile that a character of a map stands for, if it stands for one.
pub open spec fn spec_tile_kind(c: char) -> Option<TileKind> {
    if c == '#' {
        Some(TileKind::Wall)
    } else if c == '~' {
        Some(TileKind::Lava)
    } else if c == '@' {
        Some(TileKind::DataPort)
    } else if c == '$' {
        Some(TileKind::Portal)
    } else {
        None
    }
}

/// The tile that a character of a map stands for, if it stands for one.
pub fn tile_kind(c: char) -> (kind: Option<TileKind>)
    ensures
        kind == spec_tile_kind(c),
{
    if c == '#' {
        Some(TileKind::Wall)
    } else if c == '~' {
        Some(TileKind::Lava)
    } else if c == '@' {
        Some(TileKind::DataPort)
    } else if c == '$' {
        Some(TileKind::Portal)
    } else {
        None
    }
}

/// Path of the map of a level below the asset root.
pub open spec fn spec_map_path(data_bank: nat, level: nat) -> Seq<char> {
    "dives/map"@ + decimal(data_bank) + "-"@ + decimal(level) + ".txt"@
}

/// Path of the map of a level below the asset root.
pub fn map_path(data_bank: u32, level: u32) -> (path: String)
    ensures
        path@ == spec_map_path(data_bank as nat, level as nat),
{
    let mut path: String = String::from_str("dives/map");
    let bank_text: String = decimal_text(data_bank);
    path.append(bank_text.as_str());
    path.append("-");
    let level_text: String = decimal_text(level);
    path.append(level_text.as_str());
    path.append(".txt");
    path
}

/// Centre of the tile in column `col` and line `row` of a map whose middle
/// is `half`: the map is laid out around the origin, its first line lowest.
pub open spec fn tile_at(kind: TileKind, col: int, row: int, half: int) -> Tile {
    Tile {
        kind,
        x: ((col - half) * DEEP_DIVE_TILE_SCALE) as i32,
        y: ((row - half) * DEEP_DIVE_TILE_SCALE) as i32,
    }
}

/// The tiles of the first `upto` columns of one line of a map, left to right.
pub open spec fn row_tiles(line: Seq<char>, row: int, half: int, upto: int) -> Seq<Tile>
    decreases upto,
{
    if upto <= 0 {
        Seq::empty()
    } else {
        let before = row_tiles(line, row, half, upto - 1);
        match spec_tile_kind(line[upto - 1]) {
            Some(kind) => before.push(tile_at(kind, upto - 1, row, half)),
            None => before,
        }
    }
}

/// The tiles of the first `upto` lines of a map, line by line.
pub open spec fn grid_tiles(lines: Seq<Seq<char>>, half: int, upto: int) -> Seq<Tile>
    decreases upto,
{
    if upto <= 0 {
        Seq::empty()
    } else {
        grid_tiles(lines, half, upto - 1) + row_tiles(
            lines[upto - 1],
            upto - 1,
            half,
            lines[upto - 1].len() as int,
        )
    }
}

/// The tiles of a map. Each character of `#~@$` is a tile; every other
/// character is open floor. The middle of the map is half its number of lines,
/// for columns as for lines.
pub open spec fn map_tiles(source: Seq<char>) -> Seq<Tile> {
    let lines = split_lines(source);
    grid_tiles(lines, lines.len() as int / 2, lines.len() as int)
}

/// Whether `tile` is the tile of the cell in column `col` of line `row`.
pub open spec fn cell_tile(lines: Seq<Seq<char>>, half: int, row: int, col: int, tile: Tile) -> bool {
    &&& 0 <= row < lines.len()
    &&& 0 <= col < lines[row].len()
    &&& spec_tile_kind(lines[row][col]) == Some(tile.kind)
    &&& tile == tile_at(tile.kind, col, row, half)
}

/// The tiles of a line are the tiles of its cells.
pub proof fn lemma_row_tiles_cells(lines: Seq<Seq<char>>, half: int, row: int, upto: int, tile: Tile)
    requires
        0 <= row < lines.len(),
        0 <= upto <= lines[row].len(),
    ensures
        row_tiles(lines[row], row, half, upto).contains(tile) <==> exists|col: int|
            0 <= col < upto && #[trigger] cell_tile(lines, half, row, col, tile),
    decreases upto,
{
    let line = lines[row];
    if upto > 0 {
        lemma_row_tiles_cells(lines, half, row, upto - 1, tile);
        let before = row_tiles(line, row, half, upto - 1);
        match spec_tile_kind(line[upto - 1]) {
            Some(kind) => {
                lemma_seq_contains_after_push(before, tile_at(kind, upto - 1, row, half), tile);
                if tile == tile_at(kind, upto - 1, row, half) {
                    assert(cell_tile(lines, half, row, upto - 1, tile));
                }
            },
            None => {},
        }
        if before.contains(tile) {
            let col = choose|col: int|
                0 <= col < upto - 1 && #[trigger] cell_tile(lines, half, row, col, tile);
            assert(0 <= col < upto && cell_tile(lines, half, row, col, tile));
        }
    }
}

/// The tiles of the first lines of a map are the tiles of the cells of
/// those lines.
pub proof fn lemma_grid_tiles_cells(lines: Seq<Seq<char>>, half: int, upto: int, tile: Tile)
    requires
        0 <= upto <= lines.len(),
    ensures
        grid_tiles(lines, half, upto).contains(tile) <==> exists|row: int, col: int|
            0 <= row < upto && #[trigger] cell_tile(lines, half, row, col, tile),
    decreases upto,
{
    if upto > 0 {
        let row = upto - 1;
        lemma_grid_tiles_cells(lines, half, row, tile);
        lemma_row_tiles_cells(lines, half, row, lines[row].len() as int, tile);
        let above = grid_tiles(lines, half, row);
        let last = row_tiles(lines[row], row, half, lines[row].len() as int);
        lemma_seq_concat_contains_all_elements(above, last, tile);
        if above.contains(tile) {
            let (r, c) = choose|r: int, c: int|
                0 <= r < row && #[trigger] cell_tile(lines, half, r, c, tile);
            assert(0 <= r < upto && cell_tile(lines, half, r, c, tile));
        }
        if last.contains(tile) {
            let c = choose|c: int|
                0 <= c < lines[row].len() && #[trigger] cell_tile(lines, half, row, c, tile);
            assert(0 <= row < upto && cell_tile(lines, half, row, c, tile));
        }
    }
}

/// A map holds exactly the tiles of its cells: a tile lies in the map if and
/// only if some character of `#~@$` stands for its kind in some line and
/// column, and the tile lies where that cell lies.
pub proof fn lemma_map_tiles_cells(source: Seq<char>, tile: Tile)
    ensures
        map_tiles(source).contains(tile) <==> exists|row: int, col: int| #[trigger]
            cell_tile(
                split_lines(source),
                split_lines(source).len() as int / 2,
                row,
                col,
                tile,
            ),
{
    let lines = split_lines(source);
    lemma_grid_tiles_cells(lines, lines.len() as int / 2, lines.len() as int, tile);
}

/// Reads the tiles of a map: one tile for each character of `#~@$`, line by
/// line and left to right, each where its cell lies.
pub fn read_map(source: &str) -> (tiles: Vec<Tile>)
    requires
        source@.len() <= MAX_MAP_CHARS,
    ensures
        tiles@ == map_tiles(source@),
        forall|tile: Tile| #[trigger]
            tiles@.contains(tile) <==> exists|row: int, col: int| #[trigger]
                cell_tile(
                    split_lines(source@),
                    split_lines(source@).len() as int / 2,
                    row,
                    col,
                    tile,
                ),
{
    let lines: Vec<String> = read_lines(source);
    proof {
        lemma_lines_fit(source@);
        assert forall|tile: Tile| #[trigger]
            map_tiles(source@).contains(tile) <==> exists|row: int, col: int| #[trigger]
                cell_tile(
                    split_lines(source@),
                    split_lines(source@).len() as int / 2,
                    row,
                    col,
                    tile,
                ) by {
            lemma_map_tiles_cells(source@, tile);
        }
    }
    let total: usize = lines.len();
    let half: i64 = (total / 2) as i64;
    let mut tiles: Vec<Tile> = Vec::new();
    let mut row: usize = 0;
    while row < total
        invariant
            row <= total,
            total == lines@.len(),
            total <= MAX_MAP_CHARS + 1,
            half == total / 2,
            lines_view(lines@) == split_lines(source@),
            forall|i: int| 0 <= i < total ==> (#[trigger] lines_view(lines@)[i]).len() <= MAX_MAP_CHARS,
            tiles@ == grid_tiles(lines_view(lines@), half as int, row as int),
        decreases total - row,
    {
        let line: &str = lines[row].as_str();
        let ghost held = tiles@;
        let ghost chars = lines_view(lines@)[row as int];
        let mut col: usize = 0;
        for c in it: line.chars()
            invariant
                it.seq() == chars,
                line@ == chars,
                chars.len() <= MAX_MAP_CHARS,
                col == it.index(),
                row < total,
                total <= MAX_MAP_CHARS + 1,
                half == total / 2,
                tiles@ == held + row_tiles(chars, row as int, half as int, col as int),
        {
            let ghost before = row_tiles(chars, row as int, half as int, col as int);
            match tile_kind(c) {
                Some(kind) => {
                    let x: i64 = (col as i64 - half) * (DEEP_DIVE_TILE_SCALE as i64);
                    let y: i64 = (row as i64 - half) * (DEEP_DIVE_TILE_SCALE as i64);
                    tiles.push(Tile { kind, x: x as i32, y: y as i32 });
                    proof {
                        assert(tiles@ =~= held + before.push(
                            tile_at(kind, col as int, row as int, half as int),
                        ));
                    }
                },
                None => {},
            }
            col = col + 1;
        }
        proof {
            assert(col == chars.len());
        }
        row = row + 1;
    }
    tiles
}

/// How many of the first `upto` tiles are of kind `kind` and overlap the
/// player's square at `(x, y)`.
pub open spec fn hits(tiles: Seq<Tile>, kind: TileKind, x: int, y: int, upto: int) -> nat
    decreases upto,
{
    if upto <= 0 {
        0
    } else {
        hits(tiles, kind, x, y, upto - 1) + if tile_hit(tiles[upto - 1], kind, x, y) {
            1nat
        } else {
            0nat
        }
    }
}

/// Whether a tile is of kind `kind` and overlaps the player's square at `(x, y)`.
pub open spec fn tile_hit(tile: Tile, kind: TileKind, x: int, y: int) -> bool {
    tile.kind == kind && squares_overlap(
        x,
        y,
        TILE_SIDE as int,
        tile.x as int,
        tile.y as int,
        TILE_SIDE as int,
    )
}

/// How many tiles of kind `kind` overlap the player's square at `(x, y)`.
pub open spec fn all_hits(tiles: Seq<Tile>, kind: TileKind, x: int, y: int) -> nat {
    hits(tiles, kind, x, y, tiles.len() as int)
}

/// A counter that each of `times` events raises by one while it is below `cap`.
pub open spec fn raised(value: int, times: nat, cap: int) -> int {
    if value >= cap {
        value
    } else if value + times >= cap {
        cap
    } else {
        value + times
    }
}

/// The room that a step onto `(x, y)` asks for. Lava and data ports ask for
/// the dive again; a portal asks for the pod room, unless lava or a data port
/// is hit in the same step.
pub open spec fn dive_request(tiles: Seq<Tile>, x: int, y: int) -> Option<RoomKind> {
    if all_hits(tiles, TileKind::Lava, x, y) > 0 || all_hits(tiles, TileKind::DataPort, x, y) > 0 {
        Some(RoomKind::DeepDive)
    } else if all_hits(tiles, TileKind::Portal, x, y) > 0 {
        Some(RoomKind::Pod)
    } else {
        None
    }
}

/// Counts the tiles of one kind that overlap the player's square at `(x, y)`.
pub fn count_hits(tiles: &Vec<Tile>, kind: TileKind, x: i32, y: i32) -> (n: usize)
    ensures
        n == all_hits(tiles@, kind, x as int, y as int),
        n <= tiles@.len(),
{
    let mut n: usize = 0;
    let mut i: usize = 0;
    while i < tiles.len()
        invariant
            i <= tiles.len(),
            n <= i,
            n == hits(tiles@, kind, x as int, y as int, i as int),
        decreases tiles.len() - i,
    {
        let tile: Tile = tiles[i];
        if tile.kind == kind && collide(x, y, TILE_SIDE, tile.x, tile.y, TILE_SIDE) {
            n = n + 1;
        }
        i = i + 1;
    }
    n
}

/// Raises a counter by one for each of `times` events, while it is below `cap`.
fn raise(value: u32, times: usize, cap: u32) -> (r: u32)
    ensures
        r == raised(value as int, times as nat, cap as int),
{
    if value >= cap {
        value
    } else if times >= (cap - value) as usize {
        cap
    } else {
        value + times as u32
    }
}

/// Tests a step onto `(x, y)` against the tiles, kind by kind in a fixed
/// order: portals, data ports, lava, walls.
///
/// Each portal hit fills the data bank, up to [`FULL_BANK`], and asks for the
/// pod room. Each data port hit raises the level, up to [`LAST_LEVEL`], and
/// asks for the dive again. Lava asks for the dive again. A later request
/// replaces an earlier one. Only a wall blocks the step: the first component of
/// the result tells whether the step is free, the second is the room asked for.
/// What the other tiles did stands whether or not a wall blocks the step.
pub fn dive_collision_check(
    x: i32,
    y: i32,
    tiles: &Vec<Tile>,
    level: &mut u32,
    data_bank: &mut u32,
) -> (res: (bool, Option<RoomKind>))
    ensures
        res.0 == (all_hits(tiles@, TileKind::Wall, x as int, y as int) == 0),
        res.1 == dive_request(tiles@, x as int, y as int),
        *final(level) == raised(
            *old(level) as int,
            all_hits(tiles@, TileKind::DataPort, x as int, y as int),
            LAST_LEVEL as int,
        ),
        *final(data_bank) == raised(
            *old(data_bank) as int,
            all_hits(tiles@, TileKind::Portal, x as int, y as int),
            FULL_BANK as int,
        ),
{
    let mut request: Option<RoomKind> = None;
    let portals: usize = count_hits(tiles, TileKind::Portal, x, y);
    if portals > 0 {
        *data_bank = raise(*data_bank, portals, FULL_BANK);
        request = Some(RoomKind::Pod);
    }
    let ports: usize = count_hits(tiles, TileKind::DataPort, x, y);
    if ports > 0 {
        *level = raise(*level, ports, LAST_LEVEL);
        request = Some(RoomKind::DeepDive);
    }
    let lava: usize = count_hits(tiles, TileKind::Lava, x, y);
    if lava > 0 {
        request = Some(RoomKind::DeepDive);
    }
    let walls: usize = count_hits(tiles, TileKind::Wall, x, y);
    (walls == 0, request)
}

/// What the dive keeps from tick to tick.
#[derive(Clone, Debug)]
pub struct DeepDiveState {
    /// The stage of the story, as handed in when the dive began.
    pub check_progress: GameProgress,
    /// Number of the level.
    pub level: u32,
    /// The player.
    pub player: Actor,
    /// The tiles of the level.
    pub tiles: Vec<Tile>,
}

/// The mathematical content of a [`DeepDiveState`].
pub struct DiveModel {
    pub check_progress: GameProgress,
    pub level: int,
    pub player: Actor,
    pub tiles: Seq<Tile>,
}

impl View for DeepDiveState {
    type V = DiveModel;

    open spec fn view(&self) -> DiveModel {
        DiveModel {
            check_progress: self.check_progress,
            level: self.level as int,
            player: self.player,
            tiles: self.tiles@,
        }
    }
}

/// What one tick of the dive comes to.
pub struct DiveOutcome {
    pub dive: DiveModel,
    pub data_bank: int,
    pub request: Option<RoomKind>,
}

/// A dive that has never begun.
pub open spec fn dive_unopened() -> DiveModel {
    DiveModel {
        check_progress: GameProgress::Start,
        level: 0,
        player: Actor { x: 0, y: 0, velocity_x: 0, velocity_y: 0, flip_x: false },
        tiles: Seq::empty(),
    }
}

/// The level as it begins: the tiles of the map are laid out, and the player
/// rests at the origin. The level number stays.
pub open spec fn dive_started(m: DiveModel, progress: GameProgress, source: Seq<char>) -> DiveModel {
    DiveModel {
        check_progress: progress,
        player: Actor { x: 0, y: 0, velocity_x: 0, velocity_y: 0, flip_x: false },
        tiles: map_tiles(source),
        ..m
    }
}

/// The level as it closes: its tiles are gone.
pub open spec fn dive_closed(m: DiveModel) -> DiveModel {
    DiveModel { tiles: Seq::empty(), ..m }
}

/// The velocity after the keys are read. Only a player at rest takes a key:
/// left, forward, back, right, in this order of precedence.
pub open spec fn dive_velocity(player: Actor, input: TickInput) -> (int, int) {
    if player.velocity_x == 0 && player.velocity_y == 0 {
        if input.left_pressed {
            (-DEEP_DIVE_TILE_SCALE, 0)
        } else if input.forward_pressed {
            (0, DEEP_DIVE_TILE_SCALE as int)
        } else if input.back_pressed {
            (0, -DEEP_DIVE_TILE_SCALE)
        } else if input.right_pressed {
            (DEEP_DIVE_TILE_SCALE as int, 0)
        } else {
            (0, 0)
        }
    } else {
        (player.velocity_x as int, player.velocity_y as int)
    }
}

/// Whether the player is near enough to the origin to take a step.
pub open spec fn in_world(player: Actor) -> bool {
    &&& -WORLD_LIMIT <= player.x <= WORLD_LIMIT
    &&& -WORLD_LIMIT <= player.y <= WORLD_LIMIT
    &&& -DEEP_DIVE_TILE_SCALE <= player.velocity_x <= DEEP_DIVE_TILE_SCALE
    &&& -DEEP_DIVE_TILE_SCALE <= player.velocity_y <= DEEP_DIVE_TILE_SCALE
}

/// One tick of the dive. A player at rest stays, and no tile is tested. A
/// player in motion aims one tile further; the tiles there are tested; a wall
/// stops the player where it stands, anything else lets the step go through.
/// The debug key asks for the workshop, whatever the tiles asked for.
#[verifier::opaque]
pub open spec fn dive_step(m: DiveModel, data_bank: int, input: TickInput) -> DiveOutcome {
    let v = dive_velocity(m.player, input);
    let moving = v.0 != 0 || v.1 != 0;
    let x = m.player.x + v.0;
    let y = m.player.y + v.1;
    let free = all_hits(m.tiles, TileKind::Wall, x, y) == 0;
    let asked = if moving {
        dive_request(m.tiles, x, y)
    } else {
        None
    };
    DiveOutcome {
        dive: DiveModel {
            level: if moving {
                raised(m.level, all_hits(m.tiles, TileKind::DataPort, x, y), LAST_LEVEL as int)
            } else {
                m.level
            },
            player: if !moving {
                m.player
            } else if free {
                Actor {
                    x: x as i32,
                    y: y as i32,
                    velocity_x: v.0 as i32,
                    velocity_y: v.1 as i32,
                    ..m.player
                }
            } else {
                Actor { velocity_x: 0, velocity_y: 0, ..m.player }
            },
            ..m
        },
        data_bank: if moving {
            raised(data_bank, all_hits(m.tiles, TileKind::Portal, x, y), FULL_BANK as int)
        } else {
            data_bank
        },
        request: if input.debug_pressed {
            Some(RoomKind::TechShop)
        } else {
            asked
        },
    }
}

/// A tick of the dive does not change the stage of the story that it holds.
pub proof fn lemma_dive_step_keeps(m: DiveModel, data_bank: int, input: TickInput)
    ensures
        dive_step(m, data_bank, input).dive.check_progress == m.check_progress,
{
    reveal(dive_step);
}

impl DeepDiveState {
    /// A dive that has never begun.
    pub fn new() -> (dive: DeepDiveState)
        ensures
            dive@ == dive_unopened(),
    {
        let dive = DeepDiveState {
            check_progress: GameProgress::Start,
            level: 0,
            player: Actor::at(0),
            tiles: Vec::new(),
        };
        proof {
            assert(dive@.tiles =~= Seq::<Tile>::empty());
        }
        dive
    }

    /// Begins the level in stage `game_progress`. `source` is the text of the
    /// level's map.
    pub fn start(&mut self, game_progress: GameProgress, source: &str)
        requires
            source@.len() <= MAX_MAP_CHARS,
        ensures
            final(self)@ == dive_started(old(self)@, game_progress, source@),
    {
        self.check_progress = game_progress;
        self.tiles = read_map(source);
        self.player = Actor::at(0);
    }

    /// Whether the player is near enough to the origin to take a step.
    pub fn player_in_world(&self) -> (inside: bool)
        ensures
            inside == in_world(self.player),
    {
        -WORLD_LIMIT <= self.player.x && self.player.x <= WORLD_LIMIT && -WORLD_LIMIT
            <= self.player.y && self.player.y <= WORLD_LIMIT && -DEEP_DIVE_TILE_SCALE
            <= self.player.velocity_x && self.player.velocity_x <= DEEP_DIVE_TILE_SCALE
            && -DEEP_DIVE_TILE_SCALE <= self.player.velocity_y && self.player.velocity_y
            <= DEEP_DIVE_TILE_SCALE
    }

    /// One tick of the dive. Returns the room asked for, if any.
    pub fn run(&mut self, input: &TickInput, data_bank: &mut u32) -> (request: Option<RoomKind>)
        requires
            in_world(old(self).player),
        ensures
            final(self)@ == dive_step(old(self)@, *old(data_bank) as int, *input).dive,
            *final(data_bank) == dive_step(old(self)@, *old(data_bank) as int, *input).data_bank,
            request == dive_step(old(self)@, *old(data_bank) as int, *input).request,
    {
        proof {
            reveal(dive_step);
        }
        if self.player.velocity_x == 0 && self.player.velocity_y == 0 {
            if input.left_pressed {
                self.player.velocity_x = -DEEP_DIVE_TILE_SCALE;
            } else if input.forward_pressed {
                self.player.velocity_y = DEEP_DIVE_TILE_SCALE;
            } else if input.back_pressed {
                self.player.velocity_y = -DEEP_DIVE_TILE_SCALE;
            } else if input.right_pressed {
                self.player.velocity_x = DEEP_DIVE_TILE_SCALE;
            }
        }
        let mut request: Option<RoomKind> = None;
        if self.player.velocity_x != 0 || self.player.velocity_y != 0 {
            let x: i32 = self.player.x + self.player.velocity_x;
            let y: i32 = self.player.y + self.player.velocity_y;
            let res: (bool, Option<RoomKind>) = dive_collision_check(
                x,
                y,
                &self.tiles,
                &mut self.level,
                data_bank,
            );
            if res.0 {
                self.player.x = x;
                self.player.y = y;
            } else {
                self.player.velocity_x = 0;
                self.player.velocity_y = 0;
            }
            request = res.1;
        }
        if input.debug_pressed {
            request = Some(RoomKind::TechShop);
        }
        request
    }

    /// Closes the level and hands back the stage of the story, unchanged.
    pub fn close(&mut self) -> (progress: GameProgress)
        ensures
            final(self)@ == dive_closed(old(self)@),
            progress == old(self).check_progress,
    {
        self.tiles.clear();
        proof {
            assert(self@.tiles =~= Seq::<Tile>::empty());
        }
        self.check_progress
    }
}

/// A wall wins. A step onto a square that a wall and a data port both
/// overlap is blocked, and the data port still counts: the level is raised and
/// the dive is asked for again.
pub proof fn lemma_wall_wins(tiles: Seq<Tile>, x: int, y: int, wall: int, port: int)
    requires
        0 <= wall < tiles.len(),
        0 <= port < tiles.len(),
        tile_hit(tiles[wall], TileKind::Wall, x, y),
        tile_hit(tiles[port], TileKind::DataPort, x, y),
    ensures
        all_hits(tiles, TileKind::Wall, x, y) > 0,
        all_hits(tiles, TileKind::DataPort, x, y) > 0,
        dive_request(tiles, x, y) == Some(RoomKind::DeepDive),
        forall|level: int|
            level < LAST_LEVEL ==> raised(
                level,
                all_hits(tiles, TileKind::DataPort, x, y),
                LAST_LEVEL as int,
            ) > level,
{
    lemma_hit_counts(tiles, TileKind::Wall, x, y, wall, tiles.len() as int);
    lemma_hit_counts(tiles, TileKind::DataPort, x, y, port, tiles.len() as int);
}

/// A tile that is hit is counted.
pub proof fn lemma_hit_counts(tiles: Seq<Tile>, kind: TileKind, x: int, y: int, at: int, upto: int)
    requires
        0 <= at < upto <= tiles.len(),
        tile_hit(tiles[at], kind, x, y),
    ensures
        hits(tiles, kind, x, y, upto) > 0,
    decreases upto,
{
    if at < upto - 1 {
        lemma_hit_counts(tiles, kind, x, y, at, upto - 1);
    }
}

} // verus!
