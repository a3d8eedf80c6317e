use vstd::prelude::*;

pub mod player;

use crate::player::{Player, PlayerPosition};

verus! {

/// The orientation of a wall segment anchored at a grid cell.
#[derive(Debug, Clone, Copy, PartialEq, Eq, Structural)]
pub enum WallDirection {
    Vertical,
    Horizontal,
}

/// The opaque failure marker for a rejected move. It carries no
/// payload: an out-of-range player id and an illegal move are not
/// distinguished.
#[derive(Debug, Clone, PartialEq, Eq, Structural)]
pub struct MoveError;

/// One of the eight directions a pawn may attempt to move in: the
/// four cardinal directions and their diagonal combinations.
#[derive(Debug, Clone, Copy, PartialEq, Eq, Structural)]
pub enum MoveDirection {
    North,
    East,
    South,
    West,
    NorthEast,
    NorthWest,
    SouthEast,
    SouthWest,
}

/// The board: an 8-by-8 grid of optional wall segments, stored
/// row-major (`nodes[y * 8 + x]`), and the pawns in player-id order.
#[derive(Debug)]
pub struct Board {
    pub nodes: Vec<Option<WallDirection>>,
    pub players: Vec<Player>,
}

impl WallDirection {
    pub fn is_vertical(&self) -> (r: bool)
        ensures
            r == (*self is Vertical),
    {
        match self {
            WallDirection::Vertical => true,
            WallDirection::Horizontal => false,
        }
    }

    pub fn is_horizontal(&self) -> (r: bool)
        ensures
            r == (*self is Horizontal),
    {
        !self.is_vertical()
    }
}

/// Whether a slot of the grid holds a vertical wall segment.
pub open spec fn wall_vertical(w: Option<WallDirection>) -> bool {
    w == Some(WallDirection::Vertical)
}

/// Whether a slot of the grid holds a horizontal wall segment.
pub open spec fn wall_horizontal(w: Option<WallDirection>) -> bool {
    w == Some(WallDirection::Horizontal)
}

/// The absolute difference of two coordinates.
pub open spec fn spec_abs_delta(a: int, b: int) -> int {
    if a <= b {
        b - a
    } else {
        a - b
    }
}

/// Two coordinates are adjacent when they differ and both axis
/// deltas are at most one. Diagonal neighbours count as adjacent:
/// this relation only gates the bisection test, it is not the
/// movement rule itself.
pub open spec fn spec_adjacent(a: PlayerPosition, b: PlayerPosition) -> bool {
    &&& spec_abs_delta(a.x as int, b.x as int) <= 1
    &&& spec_abs_delta(a.y as int, b.y as int) <= 1
    &&& !(a.x == b.x && a.y == b.y)
}

/// Bisection is a pure function of the wall grid and the two
/// coordinates: two boards with the same wall layout answer every
/// bisection query alike, whatever their players are doing. In
/// particular, repeated queries against unchanged wall state always
/// return the same result.
pub proof fn lemma_bisected_pure_in_walls(
    b1: Board,
    b2: Board,
    a: PlayerPosition,
    b: PlayerPosition,
)
    requires
        b1.nodes@ == b2.nodes@,
    ensures
        b1.spec_bisected(a, b) == b2.spec_bisected(a, b),
{
}

/// The x-axis delta of one step in the given direction.
pub open spec fn spec_dx(dir: MoveDirection) -> int {
    match dir {
        MoveDirection::North => 0,
        MoveDirection::East => 1,
        MoveDirection::South => 0,
        MoveDirection::West => -1,
        MoveDirection::NorthEast => 1,
        MoveDirection::NorthWest => -1,
        MoveDirection::SouthEast => 1,
        MoveDirection::SouthWest => -1,
    }
}

/// The y-axis delta of one step in the given direction. North is
/// towards smaller y, South towards larger y.
pub open spec fn spec_dy(dir: MoveDirection) -> int {
    match dir {
        MoveDirection::North => -1,
        MoveDirection::East => 0,
        MoveDirection::South => 1,
        MoveDirection::West => 0,
        MoveDirection::NorthEast => -1,
        MoveDirection::NorthWest => -1,
        MoveDirection::SouthEast => 1,
        MoveDirection::SouthWest => 1,
    }
}

/// Whether one step in the given direction is a single-axis move.
pub open spec fn spec_is_cardinal(dir: MoveDirection) -> bool {
    dir is North || dir is East || dir is South || dir is West
}

/// Whether one step from `pos` in the given direction stays within
/// the representable coordinate range: neither coordinate may drop
/// below zero (stepping off the low edge of the grid) nor exceed
/// the machine integer limit.
pub open spec fn spec_move_in_range(pos: PlayerPosition, dir: MoveDirection) -> bool {
    &&& 0 <= pos.x + spec_dx(dir) <= usize::MAX
    &&& 0 <= pos.y + spec_dy(dir) <= usize::MAX
}

/// The coordinate one step from `pos` in the given direction.
pub open spec fn spec_move_target(pos: PlayerPosition, dir: MoveDirection) -> PlayerPosition
    recommends
        spec_move_in_range(pos, dir),
{
    PlayerPosition { x: (pos.x + spec_dx(dir)) as usize, y: (pos.y + spec_dy(dir)) as usize }
}

/// The fixed starting coordinate for player id `i`: north-mid,
/// south-mid, west-mid, east-mid, in id order.
pub open spec fn spec_start_position(i: int) -> PlayerPosition {
    if i == 0 {
        PlayerPosition { x: 4, y: 0 }
    } else if i == 1 {
        PlayerPosition { x: 4, y: 8 }
    } else if i == 2 {
        PlayerPosition { x: 0, y: 4 }
    } else {
        PlayerPosition { x: 8, y: 4 }
    }
}

impl Board {
    /// The structural invariant: the grid always holds exactly one
    /// slot per cell of the 8-by-8 board.
    pub open spec fn wf(self) -> bool {
        self.nodes@.len() == 64
    }

    /// The wall segment anchored at cell (x, y); coordinates outside
    /// the grid hold no wall.
    pub open spec fn spec_wall_at(self, x: int, y: int) -> Option<WallDirection> {
        if 0 <= x < 8 && 0 <= y < 8 {
            self.nodes@[y * 8 + x]
        } else {
            None
        }
    }

    /// Build a board for `num_players` players: an empty grid, and
    /// one pawn per player at its fixed starting coordinate, each
    /// holding an even share of the 20-wall stock. A player count
    /// outside 2..=4 violates the precondition; it is rejected at
    /// verification time rather than producing a malformed board.
    pub fn new(num_players: u8) -> (r: Board)
        requires
            2 <= num_players <= 4,
        ensures
            r.wf(),
            r.players@.len() == num_players as int,
            forall|i: int|
                0 <= i < num_players ==> #[trigger] r.players@[i].pos == spec_start_position(i)
                    && r.players@[i].walls_remaining == 20u8 / num_players,
            forall|x: int, y: int| #[trigger] r.spec_wall_at(x, y) is None,
    {
        let mut nodes: Vec<Option<WallDirection>> = Vec::new();
        let mut k: usize = 0;
        while k < 64
            invariant
                k <= 64,
                nodes@.len() == k,
                forall|j: int| 0 <= j < k ==> #[trigger] nodes@[j] is None,
            decreases 64 - k,
        {
            nodes.push(None);
            k = k + 1;
        }

        let mut players: Vec<Player> = Vec::new();
        let mut i: u8 = 0;
        while i < num_players
            invariant
                2 <= num_players <= 4,
                i <= num_players,
                players@.len() == i as int,
                forall|j: int|
                    0 <= j < i ==> #[trigger] players@[j].pos == spec_start_position(j)
                        && players@[j].walls_remaining == 20u8 / num_players,
            decreases num_players - i,
        {
            players.push(Player::new(Self::start_position(i), num_players));
            i = i + 1;
        }

        Board { nodes, players }
    }

    /// Anchor a wall segment of the given orientation at cell
    /// (x, y), replacing any segment already there. Coordinates
    /// outside the grid are a silent no-op, by design: nothing is
    /// placed and no error is signalled. No wall-budget check is
    /// made here; the budget remains a caller responsibility.
    pub fn place_wall(&mut self, x: usize, y: usize, direction: WallDirection)
        requires
            old(self).wf(),
        ensures
            final(self).wf(),
            final(self).players@ == old(self).players@,
            forall|i: int, j: int|
                #[trigger] final(self).spec_wall_at(i, j) == if i == x && j == y && x < 8 && y < 8 {
                    Some(direction)
                } else {
                    old(self).spec_wall_at(i, j)
                },
            !(x < 8 && y < 8) ==> *final(self) == *old(self),
    {
        if x < 8 && y < 8 {
            self.nodes.set(y * 8 + x, Some(direction));
        }
    }

    /// The wall segment anchored at cell (x, y): a bounds-checked
    /// read of the grid, `None` for coordinates outside it.
    pub fn wall_at(&self, x: usize, y: usize) -> (r: Option<WallDirection>)
        requires
            self.wf(),
        ensures
            r == self.spec_wall_at(x as int, y as int),
    {
        if x < 8 && y < 8 {
            self.nodes[y * 8 + x]
        } else {
            None
        }
    }

    /// Whether two coordinates are adjacent: distinct, and no more
    /// than one cell apart on each axis (diagonals included). Total
    /// over all coordinate pairs; never an error.
    pub fn are_adjacent(a: &PlayerPosition, b: &PlayerPosition) -> (r: bool)
        ensures
            r == spec_adjacent(*a, *b),
    {
        let d_x: usize = if a.x > b.x {
            a.x - b.x
        } else {
            b.x - a.x
        };
        let d_y: usize = if a.y > b.y {
            a.y - b.y
        } else {
            b.y - a.y
        };
        d_x <= 1 && d_y <= 1 && !(d_x == 0 && d_y == 0)
    }

    /// Whether a wall blocks the straight line between `a` and `b`.
    /// Non-adjacent pairs are bisected by definition (cells that
    /// cannot interact at range). For a horizontally separated pair,
    /// a vertical segment at the shared column in either of the two
    /// rows straddling the shared edge blocks it; for a vertically
    /// separated pair, a horizontal segment at the shared row in
    /// either of the two straddling columns does. Each row or column
    /// index one below the minimum is clamped at zero.
    pub open spec fn spec_bisected(self, a: PlayerPosition, b: PlayerPosition) -> bool {
        if !spec_adjacent(a, b) {
            true
        } else {
            let mx = if a.x <= b.x { a.x as int } else { b.x as int };
            let my = if a.y <= b.y { a.y as int } else { b.y as int };
            let dx = spec_abs_delta(a.x as int, b.x as int);
            let dy = spec_abs_delta(a.y as int, b.y as int);
            ||| (dx > 0 && (wall_vertical(self.spec_wall_at(mx, my)) || wall_vertical(
                self.spec_wall_at(mx, if my >= 1 { my - 1 } else { 0 }),
            )))
            ||| (dy > 0 && (wall_horizontal(self.spec_wall_at(mx, my)) || wall_horizontal(
                self.spec_wall_at(if mx >= 1 { mx - 1 } else { 0 }, my),
            )))
        }
    }

    /// Decide `spec_bisected` for two coordinates against the
    /// current wall layout. Read-only, total, and never an error:
    /// a pure function of the wall grid and the two coordinates.
    pub fn are_bisected(&self, a: &PlayerPosition, b: &PlayerPosition) -> (r: bool)
        requires
            self.wf(),
        ensures
            r == self.spec_bisected(*a, *b),
    {
        if !Self::are_adjacent(a, b) {
            return true;
        }

        let min_x: usize = if a.x <= b.x {
            a.x
        } else {
            b.x
        };
        let min_y: usize = if a.y <= b.y {
            a.y
        } else {
            b.y
        };
        let d_x: usize = if a.x > b.x {
            a.x - b.x
        } else {
            b.x - a.x
        };
        let d_y: usize = if a.y > b.y {
            a.y - b.y
        } else {
            b.y - a.y
        };

        if d_x > 0 {
            let below: usize = if min_y >= 1 {
                min_y - 1
            } else {
                0
            };
            let first_vertical = match self.wall_at(min_x, min_y) {
                Some(w) => w.is_vertical(),
                None => false,
            };
            let second_vertical = match self.wall_at(min_x, below) {
                Some(w) => w.is_vertical(),
                None => false,
            };
            if first_vertical || second_vertical {
                return true;
            }
        }

        if d_y > 0 {
            let left: usize = if min_x >= 1 {
                min_x - 1
            } else {
                0
            };
            let first_horizontal = match self.wall_at(min_x, min_y) {
                Some(w) => w.is_horizontal(),
                None => false,
            };
            let second_horizontal = match self.wall_at(left, min_y) {
                Some(w) => w.is_horizontal(),
                None => false,
            };
            if first_horizontal || second_horizontal {
                return true;
            }
        }

        false
    }

    /// Resolve one step from `pos` in the given direction: the pure
    /// coordinate transform, with no wall or player check. A step
    /// whose target coordinate is not representable — below zero,
    /// which would wrap an unsigned coordinate, or past the machine
    /// limit — yields `None` instead of wrapping around.
    pub fn simple_move(pos: &PlayerPosition, dir: &MoveDirection) -> (r: Option<PlayerPosition>)
        ensures
            r is Some <==> spec_move_in_range(*pos, *dir),
            r matches Some(q) ==> q == spec_move_target(*pos, *dir),
    {
        let x = pos.x;
        let y = pos.y;
        match dir {
            MoveDirection::North => {
                if y >= 1 {
                    Some(PlayerPosition { x, y: y - 1 })
                } else {
                    None
                }
            },
            MoveDirection::East => {
                if x < usize::MAX {
                    Some(PlayerPosition { x: x + 1, y })
                } else {
                    None
                }
            },
            MoveDirection::South => {
                if y < usize::MAX {
                    Some(PlayerPosition { x, y: y + 1 })
                } else {
                    None
                }
            },
            MoveDirection::West => {
                if x >= 1 {
                    Some(PlayerPosition { x: x - 1, y })
                } else {
                    None
                }
            },
            MoveDirection::NorthEast => {
                if y >= 1 && x < usize::MAX {
                    Some(PlayerPosition { x: x + 1, y: y - 1 })
                } else {
                    None
                }
            },
            MoveDirection::NorthWest => {
                if y >= 1 && x >= 1 {
                    Some(PlayerPosition { x: x - 1, y: y - 1 })
                } else {
                    None
                }
            },
            MoveDirection::SouthEast => {
                if y < usize::MAX && x < usize::MAX {
                    Some(PlayerPosition { x: x + 1, y: y + 1 })
                } else {
                    None
                }
            },
            MoveDirection::SouthWest => {
                if y < usize::MAX && x >= 1 {
                    Some(PlayerPosition { x: x - 1, y: y + 1 })
                } else {
                    None
                }
            },
        }
    }

    /// Whether player `id` may take one step in the given direction:
    /// the step must resolve to a representable coordinate, and a
    /// cardinal step must not be bisected by a wall. A diagonal step
    /// is never checked against walls — the jump-over-opponent rule
    /// of the full game is not modelled here, so every resolvable
    /// diagonal is legal.
    pub open spec fn spec_valid_move(self, id: int, dir: MoveDirection) -> bool
        recommends
            0 <= id < self.players@.len(),
    {
        let pos = self.players@[id].pos;
        &&& spec_move_in_range(pos, dir)
        &&& (spec_is_cardinal(dir) ==> !self.spec_bisected(pos, spec_move_target(pos, dir)))
    }

    /// Decide `spec_valid_move` for player `id` against the current
    /// wall layout. Read-only: a query, never an error.
    pub fn is_valid_move(&self, id: usize, dir: &MoveDirection) -> (r: bool)
        requires
            self.wf(),
            id < self.players@.len(),
        ensures
            r == self.spec_valid_move(id as int, *dir),
    {
        let pos = self.players[id].pos;
        match Self::simple_move(&pos, dir) {
            None => false,
            Some(tar_pos) => match dir {
                MoveDirection::North
                | MoveDirection::East
                | MoveDirection::South
                | MoveDirection::West => !self.are_bisected(&pos, &tar_pos),
                MoveDirection::NorthEast
                | MoveDirection::NorthWest
                | MoveDirection::SouthEast
                | MoveDirection::SouthWest => true,
            },
        }
    }

    /// Execute a move: if `id` is a real player and the step is
    /// valid, update that player's position in place and return
    /// `Ok`; otherwise return the move error and change nothing.
    /// Either failure — unknown player or illegal step — yields the
    /// same opaque error, and the board is left exactly as it was.
    pub fn move_player(&mut self, id: usize, dir: &MoveDirection) -> (r: Result<(), MoveError>)
        requires
            old(self).wf(),
        ensures
            final(self).wf(),
            r is Ok <==> id < old(self).players@.len() && old(self).spec_valid_move(
                id as int,
                *dir,
            ),
            r is Err ==> *final(self) == *old(self),
            r is Ok ==> {
                &&& final(self).nodes@ == old(self).nodes@
                &&& final(self).players@.len() == old(self).players@.len()
                &&& final(self).players@[id as int].pos == spec_move_target(
                    old(self).players@[id as int].pos,
                    *dir,
                )
                &&& final(self).players@[id as int].walls_remaining == old(
                    self,
                ).players@[id as int].walls_remaining
                &&& forall|j: int|
                    0 <= j < old(self).players@.len() && j != id ==> final(self).players@[j] == old(
                        self,
                    ).players@[j]
            },
    {
        if self.players.len() <= id || !self.is_valid_move(id, dir) {
            return Err(MoveError);
        }

        let pos = self.players[id].pos;
        let walls_remaining = self.players[id].walls_remaining;
        match Self::simple_move(&pos, dir) {
            Some(new_pos) => {
                self.players.set(id, Player { pos: new_pos, walls_remaining });
                Ok(())
            },
            // Unreachable: a valid move always resolves, but an
            // error here keeps the failure path uniform.
            None => Err(MoveError),
        }
    }

    /// The fixed starting coordinate for player id `i`.
    fn start_position(i: u8) -> (r: PlayerPosition)
        requires
            i < 4,
        ensures
            r == spec_start_position(i as int),
    {
        if i == 0 {
            PlayerPosition { x: 4, y: 0 }
        } else if i == 1 {
            PlayerPosition { x: 4, y: 8 }
        } else if i == 2 {
            PlayerPosition { x: 0, y: 4 }
        } else {
            PlayerPosition { x: 8, y: 4 }
        }
    }
}

} // verus!
