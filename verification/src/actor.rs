//! The player, the characters that stand in a room, one tick of keyboard
//! state, and the walk along a room's floor.

use vstd::prelude::*;
use crate::geometry::{clamp, clamped, collide, squares_overlap};

verus! {

/// Distance that a walking player covers in one tick.
pub const PLAYER_SPEED: i32 = 6;

/// How far beyond a room's bounds a walk may aim before it is thrown away.
pub const BORDER_MARGIN: i32 = 7;

/// Side of the player's square in a walking room.
pub const PLAYER_SIDE: u16 = 64;

/// Side of the square around a character within which the player can talk to it.
pub const NPC_SIDE: u16 = 128;

/// The keyboard as one tick sees it.
#[derive(Clone, Copy, Debug, PartialEq, Eq, Structural)]
pub struct TickInput {
    /// The walk-left key is held down.
    pub left_held: bool,
    /// The walk-right key is held down.
    pub right_held: bool,
    /// The left key went down in this tick.
    pub left_pressed: bool,
    /// The right key went down in this tick.
    pub right_pressed: bool,
    /// The forward key went down in this tick: enter a door, or step up in the dungeon.
    pub forward_pressed: bool,
    /// The back key went down in this tick: step down in the dungeon.
    pub back_pressed: bool,
    /// The talk key went down in this tick.
    pub interact_pressed: bool,
    /// The debug key went down in this tick.
    pub debug_pressed: bool,
}

/// The player: a position, a velocity, and the side the sprite faces.
#[derive(Clone, Copy, Debug, PartialEq, Eq, Structural)]
pub struct Actor {
    pub x: i32,
    pub y: i32,
    pub velocity_x: i32,
    pub velocity_y: i32,
    /// The sprite is mirrored: the player faces left.
    pub flip_x: bool,
}

/// A character that stands in a room, with the number of its dialog script.
#[derive(Clone, Copy, Debug, PartialEq, Eq, Structural)]
pub struct Npc {
    pub x: i32,
    pub y: i32,
    pub talking_id: u32,
}

impl TickInput {
    /// A tick in which no key is down.
    pub fn idle() -> (input: TickInput)
        ensures
            input == (TickInput {
                left_held: false,
                right_held: false,
                left_pressed: false,
                right_pressed: false,
                forward_pressed: false,
                back_pressed: false,
                interact_pressed: false,
                debug_pressed: false,
            }),
    {
        TickInput {
            left_held: false,
            right_held: false,
            left_pressed: false,
            right_pressed: false,
            forward_pressed: false,
            back_pressed: false,
            interact_pressed: false,
            debug_pressed: false,
        }
    }
}

impl Actor {
    /// A player at rest at `(x, 0)`, facing right.
    pub fn at(x: i32) -> (player: Actor)
        ensures
            player == (Actor { x, y: 0, velocity_x: 0, velocity_y: 0, flip_x: false }),
    {
        Actor { x, y: 0, velocity_x: 0, velocity_y: 0, flip_x: false }
    }
}

/// Horizontal velocity that the held keys ask for; left wins over right.
pub open spec fn walk_velocity(input: TickInput) -> int {
    if input.left_held {
        -PLAYER_SPEED
    } else if input.right_held {
        PLAYER_SPEED as int
    } else {
        0
    }
}

/// Whether the held keys ask for a walk.
pub open spec fn walk_wanted(input: TickInput) -> bool {
    input.left_held || input.right_held
}

/// The player after the held keys are read: the velocity follows the keys, a
/// walk turns the sprite, the position is untouched.
pub open spec fn steered(player: Actor, input: TickInput) -> Actor {
    Actor {
        velocity_x: walk_velocity(input) as i32,
        flip_x: if input.left_held {
            true
        } else if input.right_held {
            false
        } else {
            player.flip_x
        },
        ..player
    }
}

/// Reads the held keys. Sets the player's horizontal velocity and facing, and
/// returns the position the walk aims at together with whether a walk was asked
/// for. The player's position is not changed.
pub fn move_player(input: &TickInput, player: &mut Actor) -> (res: (i64, bool))
    ensures
        *final(player) == steered(*old(player), *input),
        res.0 == old(player).x + walk_velocity(*input),
        res.1 == walk_wanted(*input),
{
    let mut moved: bool = false;
    if input.left_held {
        player.velocity_x = -PLAYER_SPEED;
        player.flip_x = true;
        moved = true;
    } else if input.right_held {
        player.velocity_x = PLAYER_SPEED;
        player.flip_x = false;
        moved = true;
    } else {
        player.velocity_x = 0;
    }
    let target: i64 = player.x as i64 + player.velocity_x as i64;
    (target, moved)
}

/// Whether an aimed-at position lies within the bounds widened by the margin.
pub open spec fn within_margin(low: int, high: int, margin: int, target: int) -> bool {
    low - margin <= target <= high + margin
}

/// The position a walk is allowed to aim at: the aim itself inside the
/// widened bounds, the room's origin for an aim beyond them.
pub open spec fn settled_target(low: int, high: int, margin: int, target: int) -> int {
    if within_margin(low, high, margin, target) {
        target
    } else {
        0
    }
}

/// Whether the tick counts as a walk: a walk was asked for and its aim lies
/// inside the widened bounds.
pub open spec fn settled_moved(low: int, high: int, margin: int, target: int, moved: bool) -> bool {
    moved && within_margin(low, high, margin, target)
}

/// The position that is committed at the end of the tick.
pub open spec fn committed_x(low: int, high: int, margin: int, target: int) -> int {
    clamped(settled_target(low, high, margin, target), low, high)
}

/// Guards a walk against running away. An aim within the bounds widened by
/// `margin` is kept; any other aim is replaced by the room's origin and the
/// tick no longer counts as a walk.
pub fn settle_walk(low: i32, high: i32, margin: i32, target: i64, moved: bool) -> (res: (i64, bool))
    ensures
        res.0 == settled_target(low as int, high as int, margin as int, target as int),
        res.1 == settled_moved(low as int, high as int, margin as int, target as int, moved),
{
    if target < low as i64 - margin as i64 || target > high as i64 + margin as i64 {
        (0, false)
    } else {
        (target, moved)
    }
}

/// Commits a settled aim: the value of the bounds nearest to it.
pub fn commit_walk(low: i32, high: i32, target: i64) -> (x: i32)
    requires
        low <= high,
    ensures
        x == clamped(target as int, low as int, high as int),
        low <= x <= high,
{
    clamp(target, low, high)
}

/// Whether the player's square at `(x, y)` overlaps the square around a
/// character.
pub open spec fn in_reach(npc: Npc, x: int, y: int) -> bool {
    squares_overlap(x, y, PLAYER_SIDE as int, npc.x as int, npc.y as int, NPC_SIDE as int)
}

/// Whether the character at place `i` of the list is within reach of a
/// player at `(x, y)`, and no character before it is.
pub open spec fn first_in_reach(npcs: Seq<Npc>, x: int, y: int, i: int) -> bool {
    &&& 0 <= i < npcs.len()
    &&& in_reach(npcs[i], x, y)
    &&& forall|j: int| 0 <= j < i ==> !in_reach(#[trigger] npcs[j], x, y)
}

/// The script number of the first character, in the order of the list, that
/// is within reach of a player at `(x, y)`.
pub open spec fn first_npc_hit(npcs: Seq<Npc>, x: int, y: int) -> Option<u32>
    decreases npcs.len(),
{
    if npcs.len() == 0 {
        None
    } else if in_reach(npcs[0], x, y) {
        Some(npcs[0].talking_id)
    } else {
        first_npc_hit(npcs.drop_first(), x, y)
    }
}

/// Finds the character the player at `(x, y)` stands next to: the first one in
/// the list that is within reach, by its script number. No hit means that no
/// character is within reach.
pub fn npc_collision_check(x: i32, y: i32, npcs: &Vec<Npc>) -> (hit: Option<u32>)
    ensures
        hit == first_npc_hit(npcs@, x as int, y as int),
        hit is None <==> forall|i: int|
            0 <= i < npcs@.len() ==> !in_reach(#[trigger] npcs@[i], x as int, y as int),
        hit matches Some(id) ==> exists|i: int|
            #[trigger] first_in_reach(npcs@, x as int, y as int, i) && npcs@[i].talking_id == id,
{
    proof {
        lemma_first_npc_hit(npcs@, x as int, y as int);
    }
    let mut i: usize = 0;
    proof {
        assert(npcs@.skip(0) =~= npcs@);
    }
    while i < npcs.len()
        invariant
            i <= npcs.len(),
            first_npc_hit(npcs@, x as int, y as int) == first_npc_hit(
                npcs@.skip(i as int),
                x as int,
                y as int,
            ),
        decreases npcs.len() - i,
    {
        let npc: Npc = npcs[i];
        proof {
            assert(npcs@.skip(i as int)[0] == npc);
            assert(npcs@.skip(i as int).drop_first() =~= npcs@.skip(i + 1));
        }
        if collide(x, y, PLAYER_SIDE, npc.x, npc.y, NPC_SIDE) {
            proof {
                lemma_first_npc_hit(npcs@, x as int, y as int);
            }
            return Some(npc.talking_id);
        }
        i = i + 1;
    }
    proof {
        assert(npcs@.skip(i as int).len() == 0);
    }
    None
}

/// A hit names the first character of the list that is within reach: that
/// character is within reach, no character before it is, and the hit is its
/// script number. No hit means that no character is within reach.
pub proof fn lemma_first_npc_hit(npcs: Seq<Npc>, x: int, y: int)
    ensures
        first_npc_hit(npcs, x, y) is None <==> forall|i: int|
            0 <= i < npcs.len() ==> !in_reach(#[trigger] npcs[i], x, y),
        first_npc_hit(npcs, x, y) matches Some(id) ==> exists|i: int|
            #[trigger] first_in_reach(npcs, x, y, i) && npcs[i].talking_id == id,
    decreases npcs.len(),
{
    if npcs.len() == 0 {
    } else if in_reach(npcs[0], x, y) {
        assert(first_in_reach(npcs, x, y, 0));
    } else {
        let rest = npcs.drop_first();
        lemma_first_npc_hit(rest, x, y);
        assert forall|i: int| 0 <= i < rest.len() implies rest[i] == npcs[i + 1] by {}
        if first_npc_hit(rest, x, y) is None {
            assert forall|i: int| 0 <= i < npcs.len() implies !in_reach(
                #[trigger] npcs[i],
                x,
                y,
            ) by {
                if i > 0 {
                    assert(npcs[i] == rest[i - 1]);
                }
            }
        } else {
            let id = first_npc_hit(rest, x, y)->0;
            let k = choose|k: int|
                #[trigger] first_in_reach(rest, x, y, k) && rest[k].talking_id == id;
            assert(npcs[k + 1] == rest[k]);
            assert forall|j: int| 0 <= j < k + 1 implies !in_reach(#[trigger] npcs[j], x, y) by {
                if j > 0 {
                    assert(npcs[j] == rest[j - 1]);
                }
            }
            assert(first_in_reach(npcs, x, y, k + 1));
            assert(in_reach(npcs[k + 1], x, y));
        }
    }
}

/// The bounds hold every committed position. An aim within the bounds widened
/// by the margin is committed to a position inside the bounds. Any other aim
/// is thrown away: the tick is no walk, and the player is put at the room's
/// origin, which is where the player already stands whenever `x`, the position
/// before the tick, is the point of the bounds nearest to the origin.
pub proof fn lemma_bounds_clamp(low: int, high: int, margin: int, x: int, target: int, moved: bool)
    requires
        low <= high,
        within_margin(low, high, margin, target) || x == clamped(0, low, high),
    ensures
        low <= committed_x(low, high, margin, target) <= high,
        within_margin(low, high, margin, target) ==> committed_x(low, high, margin, target)
            == clamped(target, low, high) && settled_moved(low, high, margin, target, moved)
            == moved,
        !within_margin(low, high, margin, target) ==> committed_x(low, high, margin, target) == x
            && !settled_moved(low, high, margin, target, moved),
{
}

} // verus!
