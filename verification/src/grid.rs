//! The playfield: its size, the four directions, and one-cell moves.

use vstd::prelude::*;

verus! {

/// Number of columns of the playfield.
pub const GAME_WIDTH: u16 = 40;

/// Number of rows of the playfield.
pub const GAME_HEIGHT: u16 = 20;

/// A heading of the snake.
#[derive(Clone, Copy, Debug, PartialEq, Eq, Structural)]
pub enum Direction {
    Up,
    Down,
    Left,
    Right,
}

impl Direction {
    /// The unit step of this heading, as `(dx, dy)`. Rows grow downwards.
    pub open spec fn offset(self) -> (int, int) {
        match self {
            Direction::Up => (0, -1),
            Direction::Down => (0, 1),
            Direction::Left => (-1, 0),
            Direction::Right => (1, 0),
        }
    }

    /// The heading that points the other way.
    pub open spec fn spec_opposite(self) -> Direction {
        match self {
            Direction::Up => Direction::Down,
            Direction::Down => Direction::Up,
            Direction::Left => Direction::Right,
            Direction::Right => Direction::Left,
        }
    }

    /// The heading after the player asks for `wanted`: a request to turn
    /// straight back is dropped, any other is followed.
    pub open spec fn spec_steer(self, wanted: Direction) -> Direction {
        if wanted == self.opposite() {
            self
        } else {
            wanted
        }
    }

    /// The heading that points the other way.
    #[verifier::when_used_as_spec(spec_opposite)]
    pub fn opposite(self) -> (r: Direction)
        ensures
            r == self.spec_opposite(),
    {
        match self {
            Direction::Up => Direction::Down,
            Direction::Down => Direction::Up,
            Direction::Left => Direction::Right,
            Direction::Right => Direction::Left,
        }
    }

    /// The heading after the player asks for `wanted`.
    #[verifier::when_used_as_spec(spec_steer)]
    pub fn steer(self, wanted: Direction) -> (r: Direction)
        ensures
            r == self.spec_steer(wanted),
    {
        if wanted == self.opposite() {
            self
        } else {
            wanted
        }
    }
}

/// The mathematical position of a stored cell.
pub open spec fn point(cell: (u16, u16)) -> (int, int) {
    (cell.0 as int, cell.1 as int)
}

/// Whether `p` lies on the playfield, that is in
/// `[0, GAME_WIDTH) x [0, GAME_HEIGHT)`.
pub open spec fn on_grid(p: (int, int)) -> bool {
    0 <= p.0 < GAME_WIDTH && 0 <= p.1 < GAME_HEIGHT
}

/// The position one cell away from `p` in direction `d`. It may lie off the
/// playfield, and left of column 0 or above row 0.
pub open spec fn shifted(p: (int, int), d: Direction) -> (int, int) {
    (p.0 + d.offset().0, p.1 + d.offset().1)
}

/// The cell next to `cell` in direction `d`, or `None` where that position
/// is off the playfield. No coordinate ever wraps: a step left of column 0
/// or above row 0 is off the playfield like any other.
pub fn step(cell: (u16, u16), d: Direction) -> (r: Option<(u16, u16)>)
    ensures
        match r {
            Some(next) => on_grid(shifted(point(cell), d)) && point(next) == shifted(
                point(cell),
                d,
            ),
            None => !on_grid(shifted(point(cell), d)),
        },
{
    let (x, y) = cell;
    match d {
        Direction::Up => {
            if x < GAME_WIDTH && 0 < y && y <= GAME_HEIGHT {
                Some((x, y - 1))
            } else {
                None
            }
        },
        Direction::Down => {
            if x < GAME_WIDTH && y < GAME_HEIGHT - 1 {
                Some((x, y + 1))
            } else {
                None
            }
        },
        Direction::Left => {
            if 0 < x && x <= GAME_WIDTH && y < GAME_HEIGHT {
                Some((x - 1, y))
            } else {
                None
            }
        },
        Direction::Right => {
            if x < GAME_WIDTH - 1 && y < GAME_HEIGHT {
                Some((x + 1, y))
            } else {
                None
            }
        },
    }
}

} // verus!
