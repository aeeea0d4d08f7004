use vstd::prelude::*;

verus! {

/// Identifies an entity.
pub type EntityId = u64;

/// Identifies a level.
pub type LevelId = isize;

/// A cell of a level's grid.
#[derive(PartialEq, Eq, Structural, Clone, Copy, Debug)]
pub struct Coord {
    pub x: isize,
    pub y: isize,
}

impl Coord {
    pub fn new(x: isize, y: isize) -> (c: Coord)
        ensures
            c.x == x,
            c.y == y,
    {
        Coord { x, y }
    }
}

#[derive(PartialEq, Eq, Structural, Clone, Copy, Debug)]
pub enum DoorState {
    Open,
    Closed,
}

/// Why the game ended.
#[derive(PartialEq, Eq, Structural, Clone, Copy, Debug)]
pub enum GameOverReason {
    PlayerDied,
}

/// Why an actor left the game loop.
#[derive(PartialEq, Eq, Structural, Clone, Copy, Debug)]
pub enum ExitReason {
    Quit,
    Pause,
}

} // verus!
