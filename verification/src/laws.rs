//! What holds of every round, proved from the transitions in
//! [`crate::model`].

use crate::grid::{Board, Direction, Position};
use crate::model::{DirectionIntents, GameState, GameView};
use vstd::prelude::*;

verus! {

/// Stepping off a cell of the board in any direction lands on the board.
pub proof fn neighbour_is_on_board(board: Board, p: Position, d: Direction)
    requires
        board.wf(),
        board.contains(p),
    ensures
        board.contains(board.neighbour(p, d)),
{
}

/// Continuing a line between two cells of the board lands on the board.
pub proof fn reflection_is_on_board(board: Board, from: Position, through: Position)
    requires
        board.wf(),
        board.contains(from),
        board.contains(through),
    ensures
        board.contains(board.reflect(from, through)),
{
}

/// A fresh round on a playable board is well formed.
pub proof fn initial_round_is_well_formed(board: Board)
    requires
        board.wf(),
    ensures
        GameView::initial(board).wf(),
        GameView::initial(board).logical_length() == 2,
        GameView::initial(board).rendered == 2,
{
    let tail = Position { i: board.rows / 2, j: board.cols / 2 };
    neighbour_is_on_board(board, tail, Direction::Right);
}

/// A tick takes well-formed rounds to well-formed rounds: whatever time
/// passed and whatever keys were held, the head and every other segment
/// are on the board afterwards.
pub proof fn tick_keeps_snake_on_board(g: GameView, elapsed: nat, intents: DirectionIntents)
    requires
        g.wf(),
    ensures
        g.tick(elapsed, intents).wf(),
        g.board.contains(g.tick(elapsed, intents).head()),
        g.tick(elapsed, intents).board == g.board,
{
    let steered = g.steer(intents);
    let moved = steered.advance();
    neighbour_is_on_board(g.board, g.head(), steered.committed_heading());
    assert(moved.wf()) by {
        assert forall|k: int| 0 <= k < moved.segments.len() implies g.board.contains(
            #[trigger] moved.segments[k],
        ) by {
            if k > 0 {
                assert(moved.segments[k] == g.segments[k - 1]);
            }
        }
    }
    let n = moved.segments.len() as int;
    if n >= 2 {
        reflection_is_on_board(g.board, moved.segments[n - 2], moved.segments[n - 1]);
    } else {
        neighbour_is_on_board(g.board, moved.head(), moved.heading.opposite());
    }
    let grown = moved.grow();
    assert(grown.wf()) by {
        assert forall|k: int| 0 <= k < grown.segments.len() implies g.board.contains(
            #[trigger] grown.segments[k],
        ) by {
            if k < n {
                assert(grown.segments[k] == moved.segments[k]);
            }
        }
    }
    let after = g.tick(elapsed, intents);
    assert(after.head() == after.segments[0]);
}

/// Over any sequence of ticks the round stays well formed, so the head is
/// on the board after every one of them.
pub proof fn run_keeps_snake_on_board(g: GameView, inputs: Seq<(nat, DirectionIntents)>)
    requires
        g.wf(),
    ensures
        g.run(inputs).wf(),
        g.run(inputs).board == g.board,
        g.board.contains(g.run(inputs).head()),
    decreases inputs.len(),
{
    if inputs.len() > 0 {
        run_keeps_snake_on_board(g, inputs.drop_last());
        tick_keeps_snake_on_board(g.run(inputs.drop_last()), inputs.last().0, inputs.last().1);
    }
}

/// No tick turns the snake around: the heading afterwards is never the
/// opposite of the heading before, whatever keys are held. Between steps
/// the heading does not change at all.
pub proof fn heading_never_reverses(g: GameView, elapsed: nat, intents: DirectionIntents)
    ensures
        g.tick(elapsed, intents).heading != g.heading.opposite(),
        !g.step_due(elapsed) ==> g.tick(elapsed, intents).heading == g.heading,
{
}

/// A tick never changes the rendered count, and lengthens the snake by
/// exactly one segment when it reports an eaten apple and by none
/// otherwise.
pub proof fn tick_grows_by_what_it_eats(g: GameView, elapsed: nat, intents: DirectionIntents)
    requires
        g.wf(),
    ensures
        g.tick(elapsed, intents).rendered == g.rendered,
        g.tick(elapsed, intents).logical_length() == g.logical_length() + (if g.report(
            elapsed,
            intents,
        ).ate_apple {
            1nat
        } else {
            0nat
        }),
        g.tick(elapsed, intents).rendered <= g.tick(elapsed, intents).logical_length(),
        g.report(elapsed, intents).ate_apple ==> g.report(elapsed, intents).growth_owed,
{
}

/// Handing out growth never overtakes the snake: each call renders one
/// more segment if any is owed and none otherwise, and leaves the body as
/// it is.
pub proof fn growth_is_paid_one_segment_at_a_time(g: GameView)
    requires
        g.wf(),
    ensures
        g.materialize().wf(),
        g.materialize().rendered <= g.materialize().logical_length(),
        g.materialize().rendered == g.rendered + (if g.rendered < g.logical_length() {
            1nat
        } else {
            0nat
        }),
        g.materialize().segments == g.segments,
        g.next_unrendered() is Some <==> g.rendered < g.logical_length(),
{
}

/// A step whose head lands on another segment ends the round, and the
/// tick that does so is the only one to report a collision: once the round
/// is over, ticks change nothing and report neither step nor collision.
pub proof fn collision_ends_the_round_once(g: GameView, elapsed: nat, intents: DirectionIntents)
    ensures
        g.step_due(elapsed) && g.steer(intents).advance().head_hits_body() ==> {
            &&& g.tick(elapsed, intents).state == GameState::GameOver
            &&& g.report(elapsed, intents).collided
            &&& !g.report(elapsed, intents).ate_apple
            &&& g.tick(elapsed, intents).segments == g.steer(intents).advance().segments
        },
        g.report(elapsed, intents).collided <==> g.state == GameState::Playing && g.tick(
            elapsed,
            intents,
        ).state == GameState::GameOver,
        g.state == GameState::GameOver ==> {
            &&& g.tick(elapsed, intents) == g
            &&& !g.report(elapsed, intents).stepped
            &&& !g.report(elapsed, intents).collided
            &&& !g.report(elapsed, intents).ate_apple
        },
{
}

/// Once a round is over, no sequence of ticks changes it.
pub proof fn finished_round_stays_as_it_is(g: GameView, inputs: Seq<(nat, DirectionIntents)>)
    requires
        g.state == GameState::GameOver,
    ensures
        g.run(inputs) == g,
    decreases inputs.len(),
{
    if inputs.len() > 0 {
        finished_round_stays_as_it_is(g, inputs.drop_last());
    }
}

/// An apple that [`GameView::accepts_apple`] admits lies on the board and
/// under no segment, and placing it keeps the round well formed.
pub proof fn accepted_apple_is_off_the_snake(g: GameView, p: Position)
    requires
        g.wf(),
        g.accepts_apple(p),
    ensures
        g.with_apple(p).wf(),
        g.board.contains(p),
        forall|k: int| 0 <= k < g.segments.len() ==> g.segments[k] != p,
        g.has_free_cell(),
{
}

/// Restarting forgets the round before: two rounds on the same board start
/// from the same state, whatever was played on them.
pub proof fn restart_forgets_the_past(a: GameView, b: GameView)
    requires
        a.board == b.board,
    ensures
        GameView::initial(a.board) == GameView::initial(b.board),
        GameView::initial(a.board).state == GameState::Playing,
        GameView::initial(a.board).apple is None,
        GameView::initial(a.board).heading == Direction::Right,
        GameView::initial(a.board).segments.len() == 2,
{
}

/// While the apple lies under no segment, a step cannot both run into the
/// body and land on the apple, so the order of the two checks is never
/// observed.
pub proof fn apple_off_the_snake_is_never_under_a_collision(g: GameView)
    requires
        g.wf(),
        g.apple matches Some(a) && !g.occupies(a),
    ensures
        !(g.advance().head_hits_body() && g.advance().apple == Some(g.advance().head())),
{
    let moved = g.advance();
    if moved.head_hits_body() && moved.apple == Some(moved.head()) {
        let k = choose|k: int| 1 <= k < moved.segments.len() && #[trigger] moved.segments[k] == moved.head();
        assert(moved.segments[k] == g.segments[k - 1]);
        assert(g.segments.contains(g.segments[k - 1]));
    }
}

/// While the round runs, the head shares its cell with no segment that
/// moved with it; and a step that neither ends the round nor eats keeps a
/// body of distinct cells distinct. Growth is not covered: the cell a new
/// tail segment is put on may already hold another segment.
pub proof fn surviving_step_keeps_cells_distinct(g: GameView)
    requires
        g.segments.len() >= 1,
    ensures
        g.step().state == GameState::Playing ==> forall|k: int|
            1 <= k < g.segments.len() ==> #[trigger] g.step().segments[k] != g.step().head(),
        g.segments.no_duplicates() && !g.advance().head_hits_body() ==> g.advance().segments.no_duplicates(),
        !g.advance().head_hits_body() && !g.advance().eats() ==> g.step() == g.advance(),
{
    let moved = g.advance();
    if g.step().state == GameState::Playing {
        assert forall|k: int| 1 <= k < g.segments.len() implies #[trigger] g.step().segments[k]
            != g.step().head() by {
            assert(g.step().segments[k] == moved.segments[k]);
            assert(g.step().head() == moved.head());
        }
    }
    if g.segments.no_duplicates() && !moved.head_hits_body() {
        assert forall|i: int, j: int|
            0 <= i < moved.segments.len() && 0 <= j < moved.segments.len() && i != j implies moved.segments[i]
            != moved.segments[j] by {
            if i >= 1 {
                assert(moved.segments[i] == g.segments[i - 1]);
            }
            if j >= 1 {
                assert(moved.segments[j] == g.segments[j - 1]);
            }
        }
    }
}

} // verus!
