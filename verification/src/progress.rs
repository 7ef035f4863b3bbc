//! The story ladder: eight stages in a fixed order, and the three rules that
//! move the story one rung up.

use vstd::prelude::*;

verus! {

/// How far the story has come. The stages are listed in narrative order.
#[derive(Clone, Copy, Debug, PartialEq, Eq, Structural)]
pub enum GameProgress {
    Start,
    TalkToFigure,
    GetFirstKey,
    GetFirstData,
    GetSecondKey,
    GetSecondData,
    GetFinalKey,
    GetFinalData,
}

impl GameProgress {
    /// Position of the stage on the ladder, `0` for `Start` up to `7` for `GetFinalData`.
    pub open spec fn rank(self) -> nat {
        match self {
            GameProgress::Start => 0,
            GameProgress::TalkToFigure => 1,
            GameProgress::GetFirstKey => 2,
            GameProgress::GetFirstData => 3,
            GameProgress::GetSecondKey => 4,
            GameProgress::GetSecondData => 5,
            GameProgress::GetFinalKey => 6,
            GameProgress::GetFinalData => 7,
        }
    }

    /// Whether the stage is one of the three in which the player holds a key.
    pub open spec fn spec_has_key(self) -> bool {
        self == GameProgress::GetFirstKey || self == GameProgress::GetSecondKey || self
            == GameProgress::GetFinalKey
    }

    /// Name of the folder that holds the dialog scripts of the stage.
    pub open spec fn spec_folder(self) -> Seq<char> {
        match self {
            GameProgress::Start => "start"@,
            GameProgress::TalkToFigure => "talk"@,
            GameProgress::GetFirstKey => "first_key"@,
            GameProgress::GetFirstData => "first_data"@,
            GameProgress::GetSecondKey => "second_key"@,
            GameProgress::GetSecondData => "second_data"@,
            GameProgress::GetFinalKey => "final_key"@,
            GameProgress::GetFinalData => "final_data"@,
        }
    }

    /// The stage after a finished talk with the figure in the workshop's back alley:
    /// only `Start` moves, to `TalkToFigure`.
    pub open spec fn spec_after_alleyway_talk(self) -> GameProgress {
        match self {
            GameProgress::Start => GameProgress::TalkToFigure,
            _ => self,
        }
    }

    /// The stage after a finished talk with the figure in the cafe's back alley:
    /// each stage that waits for a key receives it.
    pub open spec fn spec_after_alleyway2_talk(self) -> GameProgress {
        match self {
            GameProgress::TalkToFigure => GameProgress::GetFirstKey,
            GameProgress::GetFirstData => GameProgress::GetSecondKey,
            GameProgress::GetSecondData => GameProgress::GetFinalKey,
            _ => self,
        }
    }

    /// The stage after a dive ends at the portal: the first and the second key
    /// turn into their data. The final key stays; that dive ends the story.
    pub open spec fn spec_after_dive(self) -> GameProgress {
        match self {
            GameProgress::GetFirstKey => GameProgress::GetFirstData,
            GameProgress::GetSecondKey => GameProgress::GetSecondData,
            _ => self,
        }
    }

    /// Position of the stage on the ladder.
    pub fn stage_number(self) -> (n: u8)
        ensures
            n == self.rank(),
    {
        match self {
            GameProgress::Start => 0,
            GameProgress::TalkToFigure => 1,
            GameProgress::GetFirstKey => 2,
            GameProgress::GetFirstData => 3,
            GameProgress::GetSecondKey => 4,
            GameProgress::GetSecondData => 5,
            GameProgress::GetFinalKey => 6,
            GameProgress::GetFinalData => 7,
        }
    }

    /// Whether the stage is one of the three in which the player holds a key.
    pub fn has_key(self) -> (held: bool)
        ensures
            held == self.spec_has_key(),
    {
        match self {
            GameProgress::GetFirstKey => true,
            GameProgress::GetSecondKey => true,
            GameProgress::GetFinalKey => true,
            _ => false,
        }
    }

    /// Whether the stage is the one in which the player holds the final key.
    pub fn is_final_key(self) -> (is_final: bool)
        ensures
            is_final == (self == GameProgress::GetFinalKey),
    {
        match self {
            GameProgress::GetFinalKey => true,
            _ => false,
        }
    }

    /// Name of the folder that holds the dialog scripts of the stage.
    pub fn folder(self) -> (name: &'static str)
        ensures
            name@ == self.spec_folder(),
    {
        match self {
            GameProgress::Start => "start",
            GameProgress::TalkToFigure => "talk",
            GameProgress::GetFirstKey => "first_key",
            GameProgress::GetFirstData => "first_data",
            GameProgress::GetSecondKey => "second_key",
            GameProgress::GetSecondData => "second_data",
            GameProgress::GetFinalKey => "final_key",
            GameProgress::GetFinalData => "final_data",
        }
    }

    /// The stage after a finished talk with the figure in the workshop's back alley.
    pub fn after_alleyway_talk(self) -> (next: GameProgress)
        ensures
            next == self.spec_after_alleyway_talk(),
            self.rank() <= next.rank() <= self.rank() + 1,
    {
        match self {
            GameProgress::Start => GameProgress::TalkToFigure,
            _ => self,
        }
    }

    /// The stage after a finished talk with the figure in the cafe's back alley.
    pub fn after_alleyway2_talk(self) -> (next: GameProgress)
        ensures
            next == self.spec_after_alleyway2_talk(),
            self.rank() <= next.rank() <= self.rank() + 1,
    {
        match self {
            GameProgress::TalkToFigure => GameProgress::GetFirstKey,
            GameProgress::GetFirstData => GameProgress::GetSecondKey,
            GameProgress::GetSecondData => GameProgress::GetFinalKey,
            _ => self,
        }
    }

    /// The stage after a dive ends at the portal.
    pub fn after_dive(self) -> (next: GameProgress)
        ensures
            next == self.spec_after_dive(),
            self.rank() <= next.rank() <= self.rank() + 1,
    {
        match self {
            GameProgress::GetFirstKey => GameProgress::GetFirstData,
            GameProgress::GetSecondKey => GameProgress::GetSecondData,
            _ => self,
        }
    }
}

/// No rule of the ladder moves the story back, and none skips a rung.
pub proof fn lemma_ladder_moves_forward(p: GameProgress)
    ensures
        p.rank() <= p.spec_after_alleyway_talk().rank() <= p.rank() + 1,
        p.rank() <= p.spec_after_alleyway2_talk().rank() <= p.rank() + 1,
        p.rank() <= p.spec_after_dive().rank() <= p.rank() + 1,
{
}

/// A rule that has moved the story does not move it again: each rule leaves
/// its own result where it is.
pub proof fn lemma_ladder_rules_fire_once(p: GameProgress)
    ensures
        p.spec_after_alleyway_talk().spec_after_alleyway_talk() == p.spec_after_alleyway_talk(),
        p.spec_after_alleyway2_talk().spec_after_alleyway2_talk() == p.spec_after_alleyway2_talk(),
        p.spec_after_dive().spec_after_dive() == p.spec_after_dive(),
{
}

} // verus!
