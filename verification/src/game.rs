//! The round's state as the driver holds it: how it is made, read and
//! restarted.

use crate::grid::{Board, Direction, Position, BOARD_SIZE_I, BOARD_SIZE_J};
use crate::model::{GameState, GameView, INITIAL_LENGTH, STEP_INTERVAL};
use vstd::prelude::*;

verus! {

/// One round of the game: the board, the snake, the apple and whether the
/// round is still running. Its fields can only be reached through this
/// crate's functions, which keep [`Game::wf`] true.
#[derive(Clone, Debug, PartialEq, Eq)]
pub struct Game {
    pub(crate) board: Board,
    pub(crate) segments: Vec<Position>,
    pub(crate) heading: Direction,
    pub(crate) pending: Direction,
    pub(crate) rendered: usize,
    pub(crate) cooldown: u64,
    pub(crate) apple: Option<Position>,
    pub(crate) state: GameState,
}

/// The two segments of a fresh snake on `board`, head first.
fn initial_segments(board: Board) -> (segments: Vec<Position>)
    requires
        board.wf(),
    ensures
        segments@ =~= GameView::initial(board).segments,
        forall|k: int| 0 <= k < segments@.len() ==> board.contains(#[trigger] segments@[k]),
{
    let tail: Position = Position { i: board.rows / 2, j: board.cols / 2 };
    let head: Position = board.step_from(tail, Direction::Right);
    let mut segments: Vec<Position> = Vec::new();
    segments.push(head);
    segments.push(tail);
    segments
}

/// Whether every cell of `segments` lies on `board`.
fn all_on_board(board: Board, segments: &Vec<Position>) -> (r: bool)
    ensures
        r == (forall|k: int| 0 <= k < segments@.len() ==> board.contains(#[trigger] segments@[k])),
{
    let mut k: usize = 0;
    while k < segments.len()
        invariant
            k <= segments@.len(),
            forall|m: int| 0 <= m < k ==> board.contains(#[trigger] segments@[m]),
        decreases segments@.len() - k,
    {
        if !board.holds(segments[k]) {
            return false;
        }
        k = k + 1;
    }
    true
}

impl Game {
    /// The round this value stands for.
    pub open(crate) spec fn view(&self) -> GameView {
        GameView {
            board: self.board,
            segments: self.segments@,
            heading: self.heading,
            pending: self.pending,
            rendered: self.rendered as nat,
            cooldown: self.cooldown as nat,
            apple: self.apple,
            state: self.state,
        }
    }

    /// The invariant of the type; see [`GameView::wf`].
    pub open spec fn wf(&self) -> bool {
        self@.wf()
    }

    /// A fresh round on the default board.
    pub fn new() -> (game: Game)
        ensures
            game.wf(),
            game@ =~= GameView::initial(Board { rows: BOARD_SIZE_I, cols: BOARD_SIZE_J }),
    {
        let board: Board = Board::standard();
        Game {
            board,
            segments: initial_segments(board),
            heading: Direction::Right,
            pending: Direction::Right,
            rendered: INITIAL_LENGTH,
            cooldown: STEP_INTERVAL,
            apple: None,
            state: GameState::Playing,
        }
    }

    /// A fresh round on `board`, or `None` if the board has no cell.
    pub fn on_board(board: Board) -> (made: Option<Game>)
        ensures
            made is Some <==> board.wf(),
            made matches Some(game) ==> game.wf() && game@ =~= GameView::initial(board),
    {
        if !board.is_playable() {
            return None;
        }
        Some(
            Game {
                board,
                segments: initial_segments(board),
                heading: Direction::Right,
                pending: Direction::Right,
                rendered: INITIAL_LENGTH,
                cooldown: STEP_INTERVAL,
                apple: None,
                state: GameState::Playing,
            },
        )
    }

    /// A round in the middle of play, put together from its parts: the
    /// body head first, the heading and the pending heading, the number of
    /// segments already rendered, the time left until the next step in
    /// nanoseconds, the apple and the state. Returns `None` unless the
    /// parts make a well-formed round.
    pub fn from_parts(
        board: Board,
        segments: Vec<Position>,
        heading: Direction,
        pending: Direction,
        rendered: usize,
        cooldown: u64,
        apple: Option<Position>,
        state: GameState,
    ) -> (made: Option<Game>)
        ensures
            made is Some <==> (GameView {
                board,
                segments: segments@,
                heading,
                pending,
                rendered: rendered as nat,
                cooldown: cooldown as nat,
                apple,
                state,
            }).wf(),
            made matches Some(game) ==> game.wf() && game@ =~= (GameView {
                board,
                segments: segments@,
                heading,
                pending,
                rendered: rendered as nat,
                cooldown: cooldown as nat,
                apple,
                state,
            }),
    {
        let apple_fits: bool = match apple {
            Some(a) => board.holds(a),
            None => true,
        };
        if board.is_playable() && segments.len() >= 1 && rendered <= segments.len() && apple_fits
            && all_on_board(board, &segments) {
            Some(Game { board, segments, heading, pending, rendered, cooldown, apple, state })
        } else {
            None
        }
    }

    /// The board the round is played on.
    pub fn board(&self) -> (board: Board)
        ensures
            board == self@.board,
    {
        self.board
    }

    /// The cells of the snake, head first.
    pub fn segments(&self) -> (segments: &Vec<Position>)
        ensures
            segments@ == self@.segments,
    {
        &self.segments
    }

    /// The cell of the head.
    pub fn head(&self) -> (head: Position)
        requires
            self.wf(),
        ensures
            head == self@.head(),
            self@.board.contains(head),
    {
        self.segments[0]
    }

    /// The direction of the last step.
    pub fn heading(&self) -> (heading: Direction)
        ensures
            heading == self@.heading,
    {
        self.heading
    }

    /// The direction most recently asked for.
    pub fn pending_heading(&self) -> (pending: Direction)
        ensures
            pending == self@.pending,
    {
        self.pending
    }

    /// How many segments have been handed out for rendering.
    pub fn rendered_length(&self) -> (n: usize)
        ensures
            n == self@.rendered,
    {
        self.rendered
    }

    /// How many segments the snake has, rendered or not.
    pub fn logical_length(&self) -> (n: usize)
        ensures
            n == self@.logical_length(),
    {
        self.segments.len()
    }

    /// Time left until the next step, in nanoseconds.
    pub fn move_cooldown(&self) -> (left: u64)
        ensures
            left == self@.cooldown,
    {
        self.cooldown
    }

    /// The cell of the apple, if there is one.
    pub fn apple(&self) -> (apple: Option<Position>)
        ensures
            apple == self@.apple,
    {
        self.apple
    }

    /// Whether the round is running or over.
    pub fn state(&self) -> (state: GameState)
        ensures
            state == self@.state,
    {
        self.state
    }
}

impl Default for Game {
    /// Same as [`Game::new`].
    fn default() -> (game: Game)
        ensures
            game.wf(),
            game@ =~= GameView::initial(Board { rows: BOARD_SIZE_I, cols: BOARD_SIZE_J }),
    {
        Game::new()
    }
}

/// Starts a round over on the same board: the snake goes back to its two
/// segments at the centre heading right, the apple is removed, the cooldown
/// starts afresh and the round is running. Whatever was played before
/// leaves no trace. Returns the cells of the new snake, head first.
pub fn setup(game: &mut Game) -> (layout: Vec<Position>)
    requires
        old(game).wf(),
    ensures
        final(game).wf(),
        final(game)@ =~= GameView::initial(old(game)@.board),
        layout@ =~= final(game)@.segments,
{
    game.segments = initial_segments(game.board);
    game.heading = Direction::Right;
    game.pending = Direction::Right;
    game.rendered = INITIAL_LENGTH;
    game.cooldown = STEP_INTERVAL;
    game.apple = None;
    game.state = GameState::Playing;
    initial_segments(game.board)
}

/// Acts on the command to play again: a round that is over starts anew as
/// [`setup`] describes, a running round is left alone. Returns whether the
/// round was restarted.
pub fn restart(game: &mut Game) -> (restarted: bool)
    requires
        old(game).wf(),
    ensures
        final(game).wf(),
        restarted == (old(game)@.state == GameState::GameOver),
        restarted ==> final(game)@ =~= GameView::initial(old(game)@.board),
        !restarted ==> final(game)@ =~= old(game)@,
{
    match game.state {
        GameState::GameOver => {
            let _ = setup(game);
            true
        },
        GameState::Playing => false,
    }
}

} // verus!
