//! The modes of the game.

use vstd::prelude::*;

verus! {

/// How a game is played.
#[derive(Debug, PartialEq, Eq, Clone, Copy, Structural)]
pub enum Gamemode {
    /// Both sides on one screen.
    Solo,
    /// Against a peer.
    Online,
    /// Against the machine.
    Bot,
}

impl Gamemode {
    /// The mode that a number stands for, if it stands for one.
    pub open spec fn spec_from_u8(value: u8) -> Option<Gamemode> {
        if value == 0 {
            Some(Gamemode::Solo)
        } else if value == 1 {
            Some(Gamemode::Online)
        } else if value == 2 {
            Some(Gamemode::Bot)
        } else {
            None
        }
    }

    /// The mode that a number stands for, if it stands for one.
    #[verifier::when_used_as_spec(spec_from_u8)]
    pub fn from_u8(value: u8) -> (mode: Option<Gamemode>)
        ensures
            mode == Gamemode::spec_from_u8(value),
    {
        if value == 0 {
            Some(Gamemode::Solo)
        } else if value == 1 {
            Some(Gamemode::Online)
        } else if value == 2 {
            Some(Gamemode::Bot)
        } else {
            None
        }
    }

    /// The number that stands for the mode.
    pub open spec fn spec_to_u8(self) -> u8 {
        match self {
            Gamemode::Solo => 0,
            Gamemode::Online => 1,
            Gamemode::Bot => 2,
        }
    }

    /// The number that stands for the mode.
    #[verifier::when_used_as_spec(spec_to_u8)]
    pub fn to_u8(self) -> (value: u8)
        ensures
            value == self.spec_to_u8(),
            Gamemode::spec_from_u8(value) == Some(self),
    {
        match self {
            Gamemode::Solo => 0,
            Gamemode::Online => 1,
            Gamemode::Bot => 2,
        }
    }
}

} // verus!
