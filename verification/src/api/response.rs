//! What the server answers to the game host.

use vstd::prelude::*;

verus! {

/// Answer to the host's request for the snake's description.
#[derive(Debug)]
pub struct Info {
    pub apiversion: String,
    pub author: Option<String>,
    pub color: Option<String>,
    pub head: Option<String>,
    pub tail: Option<String>,
    pub version: Option<String>,
}

/// Appearance of a snake, chosen when a game starts.
#[derive(PartialEq, Eq, Debug)]
pub struct Start {
    pub color: String,
    pub head_type: HeadType,
    pub tail_type: TailType,
}

#[derive(PartialEq, Eq, Debug)]
pub enum HeadType {
    // Standard
    Regular,
    Beluga,
    Bendr,
    Dead,
    Evil,
    Fang,
    Pixel,
    Safe,
    SandWorm,
    Shades,
    Silly,
    Smile,
    Tongue,
    // Branded customisations
    RbcBowler,
    ReplitMark,
    // Community
    AllSeeing,
    SmartCaterpillar,
    // Winter classic 2019
    Bonhomme,
    Earmuffs,
    Rudolph,
    Scarf,
    Ski,
    Snowman,
    SnowWorm,
    // Stay home and code 2020
    Caffeine,
    Gamer,
    TigerKing,
    Workout,
}

#[derive(PartialEq, Eq, Debug)]
pub enum TailType {
    // Standard
    Regular,
    BlockBum,
    Bolt,
    Curled,
    FatRattle,
    Freckled,
    Hook,
    Pixel,
    RoundBum,
    Sharp,
    Skinny,
    SmallRattle,
    // Branded customisations
    RbcNecktie,
    ReplitNotmark,
    // Community
    MysticMoon,
    // Winter classic 2019
    Bonhomme,
    Flake,
    IceSkate,
    Present,
    // Stay home and code 2020
    Coffee,
    Mouse,
    TigerTail,
    Weight,
}

/// A direction on the board.
#[derive(PartialEq, Eq, Debug)]
pub enum Movement {
    Right,
    Left,
    Up,
    Down,
}

/// The answer to one turn: where to go, and what to shout on the way.
#[derive(PartialEq, Eq, Debug)]
pub struct Move {
    pub movement: Movement,
    pub shout: Option<String>,
}

/// A `Move` as contracts speak of it: the shout by its characters.
pub struct MoveView {
    pub movement: Movement,
    pub shout: Option<Seq<char>>,
}

impl View for Move {
    type V = MoveView;

    open spec fn view(&self) -> MoveView {
        MoveView {
            movement: self.movement,
            shout: match self.shout {
                Some(s) => Some(s@),
                None => None,
            },
        }
    }
}

impl Move {
    /// The move given when no better one is known: up, without a shout.
    pub open spec fn fallback() -> MoveView {
        MoveView { movement: Movement::Up, shout: None }
    }
}

impl Default for Move {
    fn default() -> (m: Move)
        ensures
            m@ == Move::fallback(),
    {
        Move { movement: Movement::Up, shout: None }
    }
}

} // verus!
