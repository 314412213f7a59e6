//! The two enumerations a host chooses from: a car's team and a
//! simulation's game mode.

use vstd::prelude::*;
use crate::native;

verus! {

/// The side a car plays for.
#[derive(Clone, Copy, Debug, PartialEq, Eq, Structural)]
pub enum Team {
    Blue,
    Orange,
}

impl Team {
    pub open spec fn to_native_spec(self) -> native::Team {
        match self {
            Team::Blue => native::Team::Blue,
            Team::Orange => native::Team::Orange,
        }
    }

    pub open spec fn from_native_spec(team: native::Team) -> Team {
        match team {
            native::Team::Blue => Team::Blue,
            native::Team::Orange => Team::Orange,
        }
    }

    /// The engine's name for this team.
    pub fn to_native(self) -> (r: native::Team)
        ensures
            r == self.to_native_spec(),
    {
        match self {
            Team::Blue => native::Team::Blue,
            Team::Orange => native::Team::Orange,
        }
    }

    /// The host's name for an engine team.
    pub fn from_native(team: native::Team) -> (r: Team)
        ensures
            r == Team::from_native_spec(team),
    {
        match team {
            native::Team::Blue => Team::Blue,
            native::Team::Orange => Team::Orange,
        }
    }

    /// The text of [`Team::name`].
    pub open spec fn name_spec(self) -> Seq<char> {
        match self {
            Team::Blue => "Blue"@,
            Team::Orange => "Orange"@,
        }
    }

    /// The text of [`Team::repr`].
    pub open spec fn repr_spec(self) -> Seq<char> {
        match self {
            Team::Blue => "Team.Blue"@,
            Team::Orange => "Team.Orange"@,
        }
    }

    /// The variant's bare name, as a host prints it.
    pub fn name(&self) -> (r: String)
        ensures
            r@ == self.name_spec(),
    {
        match self {
            Team::Blue => "Blue".to_owned(),
            Team::Orange => "Orange".to_owned(),
        }
    }

    /// The variant's qualified name, as a host echoes it.
    pub fn repr(&self) -> (r: String)
        ensures
            r@ == self.repr_spec(),
    {
        match self {
            Team::Blue => "Team.Blue".to_owned(),
            Team::Orange => "Team.Orange".to_owned(),
        }
    }
}

impl Default for Team {
    /// Blue.
    fn default() -> (r: Team)
        ensures
            r == Team::Blue,
    {
        Team::Blue
    }
}

/// The pitches a host can ask for: the standard one, or none at all.
#[derive(Clone, Copy, Debug, PartialEq, Eq, Structural)]
pub enum GameMode {
    Soccar,
    TheVoid,
}

impl GameMode {
    pub open spec fn to_native_spec(self) -> native::GameMode {
        match self {
            GameMode::Soccar => native::GameMode::Soccar,
            GameMode::TheVoid => native::GameMode::TheVoid,
        }
    }

    /// Whether a host can name this engine mode.
    pub open spec fn is_mapped(mode: native::GameMode) -> bool {
        mode == native::GameMode::Soccar || mode == native::GameMode::TheVoid
    }

    pub open spec fn from_native_spec(mode: native::GameMode) -> GameMode
        recommends
            GameMode::is_mapped(mode),
    {
        if mode == native::GameMode::TheVoid {
            GameMode::TheVoid
        } else {
            GameMode::Soccar
        }
    }

    /// The engine's name for this mode.
    pub fn to_native(self) -> (r: native::GameMode)
        ensures
            r == self.to_native_spec(),
            GameMode::is_mapped(r),
    {
        match self {
            GameMode::Soccar => native::GameMode::Soccar,
            GameMode::TheVoid => native::GameMode::TheVoid,
        }
    }

    /// The host's name for an engine mode, where it has one.
    pub fn try_from_native(mode: native::GameMode) -> (r: Option<GameMode>)
        ensures
            r.is_some() == GameMode::is_mapped(mode),
            r.is_some() ==> r.unwrap() == GameMode::from_native_spec(mode),
    {
        match mode {
            native::GameMode::Soccar => Some(GameMode::Soccar),
            native::GameMode::TheVoid => Some(GameMode::TheVoid),
            _ => None,
        }
    }

    /// The host's name for an engine mode that has one.
    pub fn from_native(mode: native::GameMode) -> (r: GameMode)
        requires
            GameMode::is_mapped(mode),
        ensures
            r == GameMode::from_native_spec(mode),
    {
        match mode {
            native::GameMode::TheVoid => GameMode::TheVoid,
            _ => GameMode::Soccar,
        }
    }
}

impl Default for GameMode {
    /// The standard pitch.
    fn default() -> (r: GameMode)
        ensures
            r == GameMode::Soccar,
    {
        GameMode::Soccar
    }
}

/// The text of [`repr_bool`].
pub open spec fn repr_bool_spec(flag: bool) -> Seq<char> {
    if flag {
        "True"@
    } else {
        "False"@
    }
}

/// A flag as the host's language spells it.
pub fn repr_bool(flag: bool) -> (r: String)
    ensures
        r@ == repr_bool_spec(flag),
{
    if flag {
        "True".to_owned()
    } else {
        "False".to_owned()
    }
}

} // verus!
