use vstd::prelude::*;

verus! {

/// Game mode of a player.
#[derive(Debug, Clone, Copy, PartialEq, Eq, Structural)]
pub enum GameMode {
    Survival,
    Creative,
    Adventure,
    Spectator,
}

/// Protocol number of each game mode.
pub open spec fn game_mode_number(m: GameMode) -> u8 {
    match m {
        GameMode::Survival => 0,
        GameMode::Creative => 1,
        GameMode::Adventure => 2,
        GameMode::Spectator => 3,
    }
}

/// The game mode with a protocol number, if any.
pub open spec fn game_mode_of(id: u8) -> Option<GameMode> {
    if id == 0 {
        Some(GameMode::Survival)
    } else if id == 1 {
        Some(GameMode::Creative)
    } else if id == 2 {
        Some(GameMode::Adventure)
    } else if id == 3 {
        Some(GameMode::Spectator)
    } else {
        None
    }
}

impl GameMode {
    pub fn id(self) -> (r: u8)
        ensures
            r == game_mode_number(self),
    {
        match self {
            GameMode::Survival => 0,
            GameMode::Creative => 1,
            GameMode::Adventure => 2,
            GameMode::Spectator => 3,
        }
    }

    pub fn from_id(id: u8) -> (r: Option<GameMode>)
        ensures
            r == game_mode_of(id),
    {
        match id {
            0 => Some(GameMode::Survival),
            1 => Some(GameMode::Creative),
            2 => Some(GameMode::Adventure),
            3 => Some(GameMode::Spectator),
            _ => None,
        }
    }
}

} // verus!

verus! {

/// `from_id` undoes `id`, and every number `from_id` accepts is the `id`
/// of the mode it gives; exactly the numbers 0 to 3 are accepted.
pub proof fn game_mode_id_round_trip(m: GameMode, n: u8)
    ensures
        game_mode_of(game_mode_number(m)) == Some(m),
        game_mode_of(n) matches Some(k) ==> game_mode_number(k) == n,
        game_mode_of(n) is Some <==> n < 4,
{
}

/// World difficulty as the protocol numbers it.
#[derive(Debug, Clone, Copy, PartialEq, Eq, Structural)]
pub enum Difficulty {
    Peaceful,
    Easy,
    Normal,
    Hard,
}

pub open spec fn difficulty_number(d: Difficulty) -> u8 {
    match d {
        Difficulty::Peaceful => 0,
        Difficulty::Easy => 1,
        Difficulty::Normal => 2,
        Difficulty::Hard => 3,
    }
}

impl Difficulty {
    pub fn id(self) -> (r: u8)
        ensures
            r == difficulty_number(self),
    {
        match self {
            Difficulty::Peaceful => 0,
            Difficulty::Easy => 1,
            Difficulty::Normal => 2,
            Difficulty::Hard => 3,
        }
    }
}

/// A world dimension.
#[derive(Debug, Clone, Copy, PartialEq, Eq, Hash, Structural)]
pub enum Dimension {
    Overworld,
    Nether,
    End,
}

pub open spec fn dimension_number(d: Dimension) -> i32 {
    match d {
        Dimension::Overworld => 0,
        Dimension::Nether => -1i32,
        Dimension::End => 1,
    }
}

pub open spec fn dimension_key(d: Dimension) -> Seq<char> {
    match d {
        Dimension::Overworld => "minecraft:overworld"@,
        Dimension::Nether => "minecraft:the_nether"@,
        Dimension::End => "minecraft:the_end"@,
    }
}

impl Dimension {
    pub fn id(self) -> (r: i32)
        ensures
            r == dimension_number(self),
    {
        match self {
            Dimension::Overworld => 0,
            Dimension::Nether => -1i32,
            Dimension::End => 1,
        }
    }

    pub fn name(self) -> (r: &'static str)
        ensures
            r@ == dimension_key(self),
    {
        match self {
            Dimension::Overworld => "minecraft:overworld",
            Dimension::Nether => "minecraft:the_nether",
            Dimension::End => "minecraft:the_end",
        }
    }
}

/// Server tick counter.
pub type TickCount = u64;

} // verus!
