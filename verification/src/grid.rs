//! The board, its cells and the four directions of travel.

use vstd::arithmetic::div_mod::{
    lemma_mod_add_multiples_vanish, lemma_mod_bound, lemma_mod_self_0,
    lemma_mod_sub_multiples_vanish, lemma_small_mod,
};
use vstd::prelude::*;

verus! {

/// Number of rows of the default board.
pub const BOARD_SIZE_I: usize = 10;

/// Number of columns of the default board.
pub const BOARD_SIZE_J: usize = 10;

/// A direction of travel. `Up` and `Down` move along the rows (`i`),
/// `Right` and `Left` along the columns (`j`).
#[derive(Clone, Copy, Debug, PartialEq, Eq, Structural)]
pub enum Direction {
    Up,
    Down,
    Left,
    Right,
}

/// A cell of the grid: row `i`, column `j`.
#[derive(Clone, Copy, Debug, PartialEq, Eq, Structural)]
pub struct Position {
    pub i: usize,
    pub j: usize,
}

/// The dimensions of the grid. A usable board has at least one row and one
/// column.
#[derive(Clone, Copy, Debug, PartialEq, Eq, Structural)]
pub struct Board {
    pub rows: usize,
    pub cols: usize,
}

/// The coordinate one past `x` on an axis of length `n`, re-entering at 0.
pub open spec fn wrap_succ(x: int, n: int) -> int {
    if x + 1 == n {
        0
    } else {
        x + 1
    }
}

/// The coordinate one before `x` on an axis of length `n`, re-entering at
/// `n - 1`.
pub open spec fn wrap_pred(x: int, n: int) -> int {
    if x == 0 {
        n - 1
    } else {
        x - 1
    }
}

/// The coordinate that continues the line from `from` through `through` by
/// one more step of the same length, on an axis of length `n`: the value
/// `2 * through - from`, brought back onto the axis if it fell off either
/// end.
pub open spec fn wrap_reflect(from: int, through: int, n: int) -> int {
    let target = 2 * through - from;
    if target < 0 {
        target + n
    } else if target >= n {
        target - n
    } else {
        target
    }
}

impl Direction {
    /// The direction a snake may never turn into within a single step.
    pub open spec fn opposite(self) -> Direction {
        match self {
            Direction::Up => Direction::Down,
            Direction::Down => Direction::Up,
            Direction::Left => Direction::Right,
            Direction::Right => Direction::Left,
        }
    }

    /// Computes [`Direction::opposite`].
    pub fn reversed(self) -> (r: Direction)
        ensures
            r == self.opposite(),
    {
        match self {
            Direction::Up => Direction::Down,
            Direction::Down => Direction::Up,
            Direction::Left => Direction::Right,
            Direction::Right => Direction::Left,
        }
    }

    /// Whether `self` and `other` are the same direction.
    pub fn same(self, other: Direction) -> (r: bool)
        ensures
            r == (self == other),
    {
        match (self, other) {
            (Direction::Up, Direction::Up) => true,
            (Direction::Down, Direction::Down) => true,
            (Direction::Left, Direction::Left) => true,
            (Direction::Right, Direction::Right) => true,
            _ => false,
        }
    }
}

impl Position {
    /// Whether `self` and `other` name the same cell.
    pub fn same(self, other: Position) -> (r: bool)
        ensures
            r == (self == other),
    {
        self.i == other.i && self.j == other.j
    }
}

impl Board {
    /// A board one can play on: at least one row and one column.
    pub open spec fn wf(self) -> bool {
        self.rows >= 1 && self.cols >= 1
    }

    /// Whether `p` lies on the board.
    pub open spec fn contains(self, p: Position) -> bool {
        p.i < self.rows && p.j < self.cols
    }

    /// The cell next to `p` in direction `d`, leaving through one edge and
    /// re-entering through the opposite one.
    pub open spec fn neighbour(self, p: Position, d: Direction) -> Position {
        match d {
            Direction::Up => Position { i: wrap_succ(p.i as int, self.rows as int) as usize, j: p.j },
            Direction::Down => Position {
                i: wrap_pred(p.i as int, self.rows as int) as usize,
                j: p.j,
            },
            Direction::Right => Position {
                i: p.i,
                j: wrap_succ(p.j as int, self.cols as int) as usize,
            },
            Direction::Left => Position {
                i: p.i,
                j: wrap_pred(p.j as int, self.cols as int) as usize,
            },
        }
    }

    /// The cell that continues the line from `from` through `through`, each
    /// axis taken modulo the board's size.
    pub open spec fn reflect(self, from: Position, through: Position) -> Position {
        Position {
            i: wrap_reflect(from.i as int, through.i as int, self.rows as int) as usize,
            j: wrap_reflect(from.j as int, through.j as int, self.cols as int) as usize,
        }
    }

    /// The default 10 by 10 board.
    pub fn standard() -> (b: Board)
        ensures
            b == (Board { rows: BOARD_SIZE_I, cols: BOARD_SIZE_J }),
            b.wf(),
    {
        Board { rows: BOARD_SIZE_I, cols: BOARD_SIZE_J }
    }

    /// Computes [`Board::wf`].
    pub fn is_playable(&self) -> (r: bool)
        ensures
            r == self.wf(),
    {
        self.rows >= 1 && self.cols >= 1
    }

    /// Computes [`Board::contains`].
    pub fn holds(&self, p: Position) -> (r: bool)
        ensures
            r == self.contains(p),
    {
        p.i < self.rows && p.j < self.cols
    }

    /// Moves one cell from `p` in direction `d`, wrapping at the edges.
    pub fn step_from(&self, p: Position, d: Direction) -> (q: Position)
        requires
            self.wf(),
            self.contains(p),
        ensures
            q == self.neighbour(p, d),
            self.contains(q),
    {
        match d {
            Direction::Up => Position { i: succ_on_axis(p.i, self.rows), j: p.j },
            Direction::Down => Position { i: pred_on_axis(p.i, self.rows), j: p.j },
            Direction::Right => Position { i: p.i, j: succ_on_axis(p.j, self.cols) },
            Direction::Left => Position { i: p.i, j: pred_on_axis(p.j, self.cols) },
        }
    }

    /// Continues the line from `from` through `through` by one more cell.
    pub fn extend_line(&self, from: Position, through: Position) -> (q: Position)
        requires
            self.wf(),
            self.contains(from),
            self.contains(through),
        ensures
            q == self.reflect(from, through),
            self.contains(q),
    {
        Position {
            i: reflect_on_axis(from.i, through.i, self.rows),
            j: reflect_on_axis(from.j, through.j, self.cols),
        }
    }
}

/// `x + 1` on an axis of length `n`, wrapping from the last coordinate to 0.
pub fn succ_on_axis(x: usize, n: usize) -> (r: usize)
    requires
        x < n,
    ensures
        r == wrap_succ(x as int, n as int),
        r < n,
{
    if x == n - 1 {
        0
    } else {
        x + 1
    }
}

/// `x - 1` on an axis of length `n`, wrapping from 0 to the last coordinate.
pub fn pred_on_axis(x: usize, n: usize) -> (r: usize)
    requires
        x < n,
    ensures
        r == wrap_pred(x as int, n as int),
        r < n,
{
    if x == 0 {
        n - 1
    } else {
        x - 1
    }
}

/// `2 * through - from` on an axis of length `n`, brought back into
/// `0..n` whichever side it falls out of. Works in unsigned arithmetic
/// without ever leaving `0..n`.
pub fn reflect_on_axis(from: usize, through: usize, n: usize) -> (r: usize)
    requires
        from < n,
        through < n,
    ensures
        r == wrap_reflect(from as int, through as int, n as int),
        r < n,
{
    if from <= through {
        let ahead: usize = through - from;
        let room: usize = n - through;
        if ahead >= room {
            ahead - room
        } else {
            through + ahead
        }
    } else {
        let behind: usize = from - through;
        if behind > through {
            n - (behind - through)
        } else {
            through - behind
        }
    }
}

/// On an axis of length `n`, wrapping is arithmetic modulo `n`: for
/// coordinates on the axis the three wrapping functions are the Euclidean
/// remainders of `x + 1`, `x - 1` and `2 * y - x`, and so never negative
/// and never `n` or more.
pub proof fn lemma_wrap_is_modular(x: int, y: int, n: int)
    requires
        0 <= x < n,
        0 <= y < n,
    ensures
        wrap_succ(x, n) == (x + 1) % n,
        wrap_pred(x, n) == (x - 1) % n,
        wrap_reflect(x, y, n) == (2 * y - x) % n,
        0 <= wrap_succ(x, n) < n,
        0 <= wrap_pred(x, n) < n,
        0 <= wrap_reflect(x, y, n) < n,
{
    lemma_mod_bound(x + 1, n);
    lemma_mod_bound(x - 1, n);
    lemma_mod_bound(2 * y - x, n);
    if x + 1 == n {
        lemma_mod_self_0(n);
    } else {
        lemma_small_mod((x + 1) as nat, n as nat);
    }
    if x == 0 {
        lemma_small_mod((n - 1) as nat, n as nat);
        lemma_mod_add_multiples_vanish(-1, n);
    } else {
        lemma_small_mod((x - 1) as nat, n as nat);
    }
    let target = 2 * y - x;
    if target < 0 {
        lemma_small_mod((target + n) as nat, n as nat);
        lemma_mod_add_multiples_vanish(target, n);
    } else if target >= n {
        lemma_small_mod((target - n) as nat, n as nat);
        lemma_mod_sub_multiples_vanish(target, n);
    } else {
        lemma_small_mod(target as nat, n as nat);
    }
}

} // verus!
