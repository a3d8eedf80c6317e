use vstd::prelude::*;

verus! {

/// A grid coordinate a pawn can occupy. Cells proper range over
/// 0..=7 on both axes, but the fixed starting positions sit on the
/// rim of the grid, so a coordinate of 8 is representable too.
#[derive(Debug, Clone, Copy, PartialEq, Eq, Structural)]
pub struct PlayerPosition {
    pub x: usize,
    pub y: usize,
}

/// A pawn: its current coordinate and how many walls it may still
/// place. The wall budget is tracked but not yet consumed by wall
/// placement; enforcing it is left to the caller.
#[derive(Debug)]
pub struct Player {
    pub pos: PlayerPosition,
    pub walls_remaining: u8,
}

impl Player {
    /// A fresh pawn at `pos`. The shared stock of 20 walls is split
    /// evenly over all players, rounding down.
    pub fn new(pos: PlayerPosition, total_players: u8) -> (r: Player)
        requires
            total_players >= 1,
        ensures
            r.pos == pos,
            r.walls_remaining == 20u8 / total_players,
    {
        Player { pos, walls_remaining: 20 / total_players }
    }
}

} // verus!
