//! Headless rules of a room-to-room narrative adventure: story progress,
//! dialog sessions, walking rooms, the tile dungeon and the room state machine.

pub mod actor;
pub mod animation;
pub mod dialog;
pub mod dive;
pub mod game;
pub mod geometry;
pub mod kind;
pub mod progress;
pub mod room;
pub mod story;
pub mod text;
