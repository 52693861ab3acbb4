//! Cursor navigation on the board, wrapping around at the edges.

use vstd::prelude::*;

verus! {

/// A direction in which the cursor can move.
#[derive(Clone, Copy, Debug, PartialEq, Eq, Structural)]
pub enum Direction {
    Up,
    Down,
    Left,
    Right,
}

/// A position `(row, column)` lies on the board when both are in `1..=3`.
pub open spec fn valid_pos(p: (isize, isize)) -> bool {
    1 <= p.0 <= 3 && 1 <= p.1 <= 3
}

/// The linear index `(row - 1) * 3 + (column - 1)` of a board position.
pub open spec fn pos_index(p: (isize, isize)) -> int {
    (p.0 - 1) * 3 + (p.1 - 1)
}

/// Brings a coordinate that stepped off the board back on the other side.
pub open spec fn wrap(v: int) -> int {
    if v == 0 {
        3
    } else if v == 4 {
        1
    } else {
        v
    }
}

/// The position reached from `p` by one step in direction `d`.
pub open spec fn moved(p: (isize, isize), d: Direction) -> (isize, isize) {
    match d {
        Direction::Up => (wrap(p.0 - 1) as isize, p.1),
        Direction::Down => (wrap(p.0 + 1) as isize, p.1),
        Direction::Left => (p.0, wrap(p.1 - 1) as isize),
        Direction::Right => (p.0, wrap(p.1 + 1) as isize),
    }
}

/// Moves the cursor one cell in direction `side`, wrapping at the edges.
pub fn move_selection(current_position: (isize, isize), side: Direction) -> (r: (isize, isize))
    requires
        valid_pos(current_position),
    ensures
        r == moved(current_position, side),
        valid_pos(r),
{
    let mut new_position = current_position;
    match side {
        Direction::Up => {
            new_position.0 = new_position.0 - 1;
            if new_position.0 == 0 {
                new_position.0 = 3;
            }
        },
        Direction::Down => {
            new_position.0 = new_position.0 + 1;
            if new_position.0 == 4 {
                new_position.0 = 1;
            }
        },
        Direction::Left => {
            new_position.1 = new_position.1 - 1;
            if new_position.1 == 0 {
                new_position.1 = 3;
            }
        },
        Direction::Right => {
            new_position.1 = new_position.1 + 1;
            if new_position.1 == 4 {
                new_position.1 = 1;
            }
        },
    }
    new_position
}

/// Stepping off any edge of the board lands on the opposite edge, in the same
/// row or column.
pub proof fn lemma_cursor_wraps(r: isize, c: isize)
    requires
        1 <= r <= 3,
        1 <= c <= 3,
    ensures
        moved((1, c), Direction::Up) == (3isize, c),
        moved((3, c), Direction::Down) == (1isize, c),
        moved((r, 1), Direction::Left) == (r, 3isize),
        moved((r, 3), Direction::Right) == (r, 1isize),
{
}

} // verus!
