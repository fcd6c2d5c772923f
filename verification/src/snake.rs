//! Movement and growth of the snake.

use crate::game::Game;
use crate::grid::{Direction, Position};
use crate::model::{DirectionIntents, GameState, TickReport, STEP_INTERVAL};
use vstd::prelude::*;

verus! {

impl DirectionIntents {
    /// No key set.
    pub fn none() -> (r: DirectionIntents)
        ensures
            r == (DirectionIntents { up: false, down: false, right: false, left: false }),
            r.chosen() is None,
    {
        DirectionIntents { up: false, down: false, right: false, left: false }
    }

    /// Exactly the key for `d` set.
    pub fn only(d: Direction) -> (r: DirectionIntents)
        ensures
            r.chosen() == Some(d),
            r.up == (d == Direction::Up),
            r.down == (d == Direction::Down),
            r.right == (d == Direction::Right),
            r.left == (d == Direction::Left),
    {
        match d {
            Direction::Up => DirectionIntents { up: true, down: false, right: false, left: false },
            Direction::Down => DirectionIntents {
                up: false,
                down: true,
                right: false,
                left: false,
            },
            Direction::Right => DirectionIntents {
                up: false,
                down: false,
                right: true,
                left: false,
            },
            Direction::Left => DirectionIntents {
                up: false,
                down: false,
                right: false,
                left: true,
            },
        }
    }

    /// Computes [`DirectionIntents::chosen`].
    pub fn pick(&self) -> (r: Option<Direction>)
        ensures
            r == self.chosen(),
    {
        if self.up {
            Some(Direction::Up)
        } else if self.down {
            Some(Direction::Down)
        } else if self.right {
            Some(Direction::Right)
        } else if self.left {
            Some(Direction::Left)
        } else {
            None
        }
    }
}

/// Moves every segment but the head to where its predecessor was, working
/// from the tail towards the head, and puts the head on `new_head`.
fn shift_body(segments: &mut Vec<Position>, new_head: Position)
    requires
        old(segments)@.len() >= 1,
    ensures
        final(segments)@ =~= seq![new_head] + old(segments)@.drop_last(),
{
    let n: usize = segments.len();
    let mut k: usize = n - 1;
    while k > 0
        invariant
            k < n,
            segments@.len() == n,
            old(segments)@.len() == n,
            forall|m: int| 0 <= m <= k ==> segments@[m] == old(segments)@[m],
            forall|m: int| k < m < n ==> segments@[m] == old(segments)@[m - 1],
        decreases k,
    {
        let before: Position = segments[k - 1];
        segments.set(k, before);
        k = k - 1;
    }
    segments.set(0, new_head);
}

/// Whether a segment other than the first lies on the first one's cell.
fn first_repeats(segments: &Vec<Position>) -> (r: bool)
    requires
        segments@.len() >= 1,
    ensures
        r == (exists|k: int| 1 <= k < segments@.len() && #[trigger] segments@[k] == segments@[0]),
{
    let head: Position = segments[0];
    let mut k: usize = 1;
    while k < segments.len()
        invariant
            1 <= k <= segments@.len(),
            head == segments@[0],
            forall|m: int| 1 <= m < k ==> #[trigger] segments@[m] != segments@[0],
        decreases segments@.len() - k,
    {
        if segments[k].same(head) {
            return true;
        }
        k = k + 1;
    }
    false
}

/// Commits the heading, moves the body one cell and restarts the cooldown.
fn advance(game: &mut Game)
    requires
        old(game).wf(),
    ensures
        final(game).wf(),
        final(game)@ =~= old(game)@.advance(),
{
    if !game.pending.same(game.heading.reversed()) {
        game.heading = game.pending;
    }
    let new_head: Position = game.board.step_from(game.segments[0], game.heading);
    shift_body(&mut game.segments, new_head);
    game.cooldown = STEP_INTERVAL;
}

/// Removes the apple and appends the segment it pays for.
fn grow(game: &mut Game)
    requires
        old(game).wf(),
    ensures
        final(game).wf(),
        final(game)@ =~= old(game)@.grow(),
{
    let n: usize = game.segments.len();
    let extension: Position = if n >= 2 {
        game.board.extend_line(game.segments[n - 2], game.segments[n - 1])
    } else {
        game.board.step_from(game.segments[0], game.heading.reversed())
    };
    game.segments.push(extension);
    game.apple = None;
}

/// Advances the round by one frame.
///
/// `elapsed` is the time since the previous call, in nanoseconds, and
/// `intents` the direction keys seen in this frame. A finished round is
/// left untouched. In a running one the keys are recorded first, on every
/// call; then, if `elapsed` uses up the cooldown, the snake steps: it turns
/// to the recorded direction unless that is the reverse of its heading,
/// moves one cell with wrap-around, and either ends the round by running
/// into itself or, failing that, eats the apple under its head and grows by
/// one segment at the tail. Otherwise the cooldown shrinks by `elapsed`.
pub fn move_snake(game: &mut Game, elapsed: u64, intents: DirectionIntents) -> (report: TickReport)
    requires
        old(game).wf(),
    ensures
        final(game).wf(),
        final(game)@ =~= old(game)@.tick(elapsed as nat, intents),
        report == old(game)@.report(elapsed as nat, intents),
        final(game)@.board.contains(final(game)@.head()),
        final(game)@.heading != old(game)@.heading.opposite(),
        final(game)@.rendered == old(game)@.rendered,
        final(game)@.logical_length() == old(game)@.logical_length() + (if report.ate_apple {
            1nat
        } else {
            0nat
        }),
{
    match game.state {
        GameState::GameOver => {
            return TickReport {
                head: game.segments[0],
                stepped: false,
                collided: false,
                ate_apple: false,
                growth_owed: game.rendered < game.segments.len(),
            };
        },
        GameState::Playing => {},
    }
    match intents.pick() {
        Some(d) => {
            game.pending = d;
        },
        None => {},
    }
    if elapsed < game.cooldown {
        game.cooldown = game.cooldown - elapsed;
        return TickReport {
            head: game.segments[0],
            stepped: false,
            collided: false,
            ate_apple: false,
            growth_owed: game.rendered < game.segments.len(),
        };
    }
    advance(game);
    let collided: bool = first_repeats(&game.segments);
    let mut ate_apple: bool = false;
    if collided {
        game.state = GameState::GameOver;
    } else {
        let head: Position = game.segments[0];
        let on_apple: bool = match game.apple {
            Some(a) => a.same(head),
            None => false,
        };
        if on_apple {
            grow(game);
            ate_apple = true;
        }
    }
    TickReport {
        head: game.segments[0],
        stepped: true,
        collided,
        ate_apple,
        growth_owed: game.rendered < game.segments.len(),
    }
}

/// Hands out the next segment that has not been rendered yet, at most one
/// per call however many are owed, and counts it as rendered. Returns
/// `None`, and changes nothing, when every segment has been handed out.
pub fn spawn_snake_tile(game: &mut Game) -> (tile: Option<Position>)
    requires
        old(game).wf(),
    ensures
        final(game).wf(),
        final(game)@ =~= old(game)@.materialize(),
        tile == old(game)@.next_unrendered(),
        tile is Some <==> old(game)@.rendered < old(game)@.logical_length(),
        final(game)@.rendered <= old(game)@.rendered + 1,
{
    if game.rendered < game.segments.len() {
        let tile: Position = game.segments[game.rendered];
        game.rendered = game.rendered + 1;
        Some(tile)
    } else {
        None
    }
}

} // verus!
