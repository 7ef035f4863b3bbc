//! Sprite sheets: which frame a sprite shows next, and when its timer rests.

use vstd::prelude::*;

verus! {

/// A sprite that plays its sheet once and rests on the last frame.
pub const PLAY_ONCE: u32 = 0;

/// What one tick of a sprite's animation comes to.
#[derive(Clone, Copy, Debug, PartialEq, Eq, Structural)]
pub struct FrameStep {
    /// The frame to show.
    pub index: usize,
    /// The timer is to be paused.
    pub pause: bool,
}

/// Whether the sprite's timer is to be paused in this tick: a sprite that
/// plays once has reached its last frame.
pub open spec fn frame_pause(mode: u32, index: int, frames: int) -> bool {
    mode == PLAY_ONCE && index == frames - 1
}

/// The frame a sprite shows after the tick. A sprite whose timer rests shows
/// its resting frame: the last one if it plays once, the first one otherwise.
/// A running sprite moves one frame on, around the sheet, each time its timer
/// has run out, and stays on its frame otherwise.
pub open spec fn next_frame(
    mode: u32,
    index: int,
    frames: int,
    paused: bool,
    just_finished: bool,
) -> int {
    if paused || frame_pause(mode, index, frames) {
        if mode == PLAY_ONCE {
            frames - 1
        } else {
            0
        }
    } else if just_finished {
        (index + 1) % frames
    } else {
        index
    }
}

/// One tick of a sprite's animation, after its timer has been advanced.
/// `paused` and `just_finished` are the timer's state; `frames` is the number
/// of frames of the sheet.
pub fn animate_sprite(
    mode: u32,
    index: usize,
    frames: usize,
    paused: bool,
    just_finished: bool,
) -> (step: FrameStep)
    requires
        frames > 0,
    ensures
        step.pause == frame_pause(mode, index as int, frames as int),
        step.index == next_frame(mode, index as int, frames as int, paused, just_finished),
        step.index < frames || step.index == index,
{
    let pause: bool = mode == PLAY_ONCE && index == frames - 1;
    let next: usize = if paused || pause {
        if mode == PLAY_ONCE {
            frames - 1
        } else {
            0
        }
    } else if just_finished {
        ((index as u128 + 1) % (frames as u128)) as usize
    } else {
        index
    };
    FrameStep { index: next, pause }
}

/// Whether the player's walk timer rests after the tick: a walk wakes it, and
/// a player at rest lets it run out once more before it rests.
pub open spec fn walk_timer_rests(moved: bool, paused: bool, just_finished: bool) -> bool {
    if moved {
        false
    } else if just_finished {
        true
    } else {
        paused
    }
}

/// Whether the player's walk timer rests after the tick.
pub fn walk_timer_paused(moved: bool, paused: bool, just_finished: bool) -> (rests: bool)
    ensures
        rests == walk_timer_rests(moved, paused, just_finished),
{
    if moved {
        false
    } else if just_finished {
        true
    } else {
        paused
    }
}

} // verus!
