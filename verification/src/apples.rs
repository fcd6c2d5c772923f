//! Placement of the apple on a cell the snake does not cover.

use crate::game::Game;
use crate::grid::Position;
use rand::Rng;
use vstd::prelude::*;

verus! {

/// How many random cells are tried before the board is searched in order.
pub const MAX_APPLE_DRAWS: usize = 1000;

/// Whether `a` comes before `b` when the board is read row by row.
pub open spec fn row_major_before(a: Position, b: Position) -> bool {
    a.i < b.i || (a.i == b.i && a.j < b.j)
}

/// A random index below `bound`.
///
/// Calls `rand::thread_rng()` and `Rng::gen_range` with the range
/// `0..bound`. Not proved: that the value lies in the range, which is what
/// `gen_range` documents. Nothing is claimed about which value comes back,
/// nor that two calls agree. `gen_range` panics on an empty range, hence
/// the precondition; `thread_rng` panics if the operating system provides
/// no entropy to seed the generator, which no argument can rule out.
#[verifier::external_body]
fn random_below(bound: usize) -> (r: usize)
    requires
        bound > 0,
    ensures
        r < bound,
{
    rand::thread_rng().gen_range(0..bound)
}

/// Whether some segment of the snake lies on `p`.
pub fn occupied(game: &Game, p: Position) -> (r: bool)
    ensures
        r == game@.occupies(p),
{
    let mut k: usize = 0;
    while k < game.segments.len()
        invariant
            k <= game.segments@.len(),
            forall|m: int| 0 <= m < k ==> game.segments@[m] != p,
        decreases game.segments@.len() - k,
    {
        if game.segments[k].same(p) {
            return true;
        }
        k = k + 1;
    }
    false
}

/// Puts the apple on `candidate` if there is no apple and `candidate` is a
/// cell of the board that the snake does not cover; otherwise changes
/// nothing. Returns whether the apple was placed.
pub fn try_place_apple(game: &mut Game, candidate: Position) -> (placed: bool)
    requires
        old(game).wf(),
    ensures
        final(game).wf(),
        placed == old(game)@.accepts_apple(candidate),
        placed ==> final(game)@ =~= old(game)@.with_apple(candidate),
        !placed ==> final(game)@ =~= old(game)@,
{
    if game.apple.is_some() || !game.board.holds(candidate) || occupied(game, candidate) {
        false
    } else {
        game.apple = Some(candidate);
        true
    }
}

/// The first cell in row-major order that the snake does not cover, or
/// `None` if it covers the whole board.
pub fn first_free_cell(game: &Game) -> (found: Option<Position>)
    requires
        game.wf(),
    ensures
        found is Some <==> game@.has_free_cell(),
        found matches Some(p) ==> {
            &&& game@.board.contains(p)
            &&& !game@.occupies(p)
            &&& forall|q: Position|
                game@.board.contains(q) && row_major_before(q, p) ==> game@.occupies(q)
        },
{
    let mut i: usize = 0;
    while i < game.board.rows
        invariant
            i <= game.board.rows,
            forall|q: Position| game@.board.contains(q) && q.i < i ==> game@.occupies(q),
        decreases game.board.rows - i,
    {
        let mut j: usize = 0;
        while j < game.board.cols
            invariant
                i < game.board.rows,
                j <= game.board.cols,
                forall|q: Position| game@.board.contains(q) && q.i < i ==> game@.occupies(q),
                forall|q: Position|
                    game@.board.contains(q) && q.i == i && q.j < j ==> game@.occupies(q),
            decreases game.board.cols - j,
        {
            let p: Position = Position { i, j };
            if !occupied(game, p) {
                return Some(p);
            }
            j = j + 1;
        }
        i = i + 1;
    }
    None
}

/// Places an apple if there is none and the snake leaves a cell free.
///
/// Cells are drawn at random, row and column independently, until one is
/// free. After [`MAX_APPLE_DRAWS`] covered cells in a row the board is
/// searched in row-major order instead, so the call always ends: with an
/// apple whenever a free cell exists, and with `None` when the snake fills
/// the board. Returns the cell of the new apple, or `None` if nothing was
/// placed. The snake is never touched.
pub fn spawn_apple(game: &mut Game) -> (placed: Option<Position>)
    requires
        old(game).wf(),
    ensures
        final(game).wf(),
        placed is Some <==> old(game)@.apple is None && old(game)@.has_free_cell(),
        placed matches Some(p) ==> {
            &&& old(game)@.board.contains(p)
            &&& !old(game)@.occupies(p)
            &&& final(game)@ =~= old(game)@.with_apple(p)
        },
        placed is None ==> final(game)@ =~= old(game)@,
        final(game)@.segments == old(game)@.segments,
{
    if game.apple.is_some() {
        return None;
    }
    let mut draws: usize = 0;
    while draws < MAX_APPLE_DRAWS
        invariant
            game.wf(),
            game@ =~= old(game)@,
        decreases MAX_APPLE_DRAWS - draws,
    {
        let candidate: Position = Position {
            i: random_below(game.board.rows),
            j: random_below(game.board.cols),
        };
        if try_place_apple(game, candidate) {
            return Some(candidate);
        }
        draws = draws + 1;
    }
    let found: Option<Position> = first_free_cell(game);
    match found {
        Some(p) => {
            game.apple = Some(p);
        },
        None => {},
    }
    found
}

} // verus!
