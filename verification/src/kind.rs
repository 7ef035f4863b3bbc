//! The closed set of rooms.

use vstd::prelude::*;

verus! {

/// One of the twelve places the game can be in.
#[derive(Clone, Copy, Debug, PartialEq, Eq, Structural)]
pub enum RoomKind {
    Intro,
    End,
    Helionix,
    Fusiogenic,
    TechShop,
    Alleyway,
    Cyberway,
    PartsShop,
    Cafe,
    Pod,
    Alleyway2,
    DeepDive,
}

impl RoomKind {
    /// Rooms in which the player walks left and right: the seven overworld rooms.
    pub open spec fn spec_is_walkable(self) -> bool {
        match self {
            RoomKind::TechShop => true,
            RoomKind::Alleyway => true,
            RoomKind::Cyberway => true,
            RoomKind::PartsShop => true,
            RoomKind::Cafe => true,
            RoomKind::Pod => true,
            RoomKind::Alleyway2 => true,
            _ => false,
        }
    }

    /// Rooms that only show a text, line by line.
    pub open spec fn spec_is_story(self) -> bool {
        match self {
            RoomKind::Intro => true,
            RoomKind::End => true,
            RoomKind::Helionix => true,
            RoomKind::Fusiogenic => true,
            _ => false,
        }
    }

    /// Name of the room in resource paths.
    pub open spec fn spec_name(self) -> Seq<char> {
        match self {
            RoomKind::Intro => "intro"@,
            RoomKind::End => "end"@,
            RoomKind::Helionix => "helionix"@,
            RoomKind::Fusiogenic => "fusiogenic"@,
            RoomKind::TechShop => "tech_shop"@,
            RoomKind::Alleyway => "alleyway"@,
            RoomKind::Cyberway => "cyberway"@,
            RoomKind::PartsShop => "parts_shop"@,
            RoomKind::Cafe => "cafe"@,
            RoomKind::Pod => "pod"@,
            RoomKind::Alleyway2 => "alleyway2"@,
            RoomKind::DeepDive => "deep_dive"@,
        }
    }

    /// Whether the player walks left and right in the room.
    pub fn is_walkable(self) -> (walkable: bool)
        ensures
            walkable == self.spec_is_walkable(),
    {
        match self {
            RoomKind::TechShop => true,
            RoomKind::Alleyway => true,
            RoomKind::Cyberway => true,
            RoomKind::PartsShop => true,
            RoomKind::Cafe => true,
            RoomKind::Pod => true,
            RoomKind::Alleyway2 => true,
            _ => false,
        }
    }

    /// Whether the room only shows a text, line by line.
    pub fn is_story(self) -> (story: bool)
        ensures
            story == self.spec_is_story(),
    {
        match self {
            RoomKind::Intro => true,
            RoomKind::End => true,
            RoomKind::Helionix => true,
            RoomKind::Fusiogenic => true,
            _ => false,
        }
    }

    /// Name of the room in resource paths.
    pub fn name(self) -> (name: &'static str)
        ensures
            name@ == self.spec_name(),
    {
        match self {
            RoomKind::Intro => "intro",
            RoomKind::End => "end",
            RoomKind::Helionix => "helionix",
            RoomKind::Fusiogenic => "fusiogenic",
            RoomKind::TechShop => "tech_shop",
            RoomKind::Alleyway => "alleyway",
            RoomKind::Cyberway => "cyberway",
            RoomKind::PartsShop => "parts_shop",
            RoomKind::Cafe => "cafe",
            RoomKind::Pod => "pod",
            RoomKind::Alleyway2 => "alleyway2",
            RoomKind::DeepDive => "deep_dive",
        }
    }
}

} // verus!
