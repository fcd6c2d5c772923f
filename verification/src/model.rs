//! The round as a mathematical object: its state and the transitions the
//! rules allow. Everything executable in this crate is specified against
//! the functions in this file.

use crate::grid::{Board, Direction, Position};
use vstd::prelude::*;

verus! {

/// Time between two steps of the snake, in nanoseconds (0.3 s).
pub const STEP_INTERVAL: u64 = 300_000_000;

/// Number of segments a fresh snake has.
pub const INITIAL_LENGTH: usize = 2;

/// Whether a round is running or has ended in a self-collision.
#[derive(Clone, Copy, Debug, PartialEq, Eq, Hash, Structural)]
pub enum GameState {
    Playing,
    GameOver,
}

/// Which direction keys the driver saw held or freshly pressed this frame.
#[derive(Clone, Copy, Debug, PartialEq, Eq, Structural)]
pub struct DirectionIntents {
    pub up: bool,
    pub down: bool,
    pub right: bool,
    pub left: bool,
}

/// What one call of the tick did, for the driver to act on.
#[derive(Clone, Copy, Debug, PartialEq, Eq, Structural)]
pub struct TickReport {
    /// Where the head is after the call.
    pub head: Position,
    /// Whether the cooldown ran out and the snake moved one cell.
    pub stepped: bool,
    /// Whether the move ran the head into the body and ended the round.
    pub collided: bool,
    /// Whether the move put the head on the apple.
    pub ate_apple: bool,
    /// Whether the body holds segments that have not been handed out for
    /// rendering yet.
    pub growth_owed: bool,
}

/// The state of a round.
#[verifier::ext_equal]
pub struct GameView {
    pub board: Board,
    /// Cells of the body, head first.
    pub segments: Seq<Position>,
    /// Direction of the last step, and of the next one unless `pending`
    /// replaces it.
    pub heading: Direction,
    /// The most recent direction asked for.
    pub pending: Direction,
    /// How many segments have been handed out for rendering.
    pub rendered: nat,
    /// Time left until the next step, in nanoseconds.
    pub cooldown: nat,
    pub apple: Option<Position>,
    pub state: GameState,
}

impl DirectionIntents {
    /// The direction the keys ask for: the first that is set among up,
    /// down, right, left; none if no key is set.
    pub open spec fn chosen(self) -> Option<Direction> {
        if self.up {
            Some(Direction::Up)
        } else if self.down {
            Some(Direction::Down)
        } else if self.right {
            Some(Direction::Right)
        } else if self.left {
            Some(Direction::Left)
        } else {
            None
        }
    }
}

impl GameView {
    /// What every reachable state satisfies: a playable board, a body of at
    /// least one segment that lies on the board, no more segments rendered
    /// than exist, and an apple, if any, on the board.
    pub open spec fn wf(self) -> bool {
        &&& self.board.wf()
        &&& self.segments.len() >= 1
        &&& forall|k: int|
            0 <= k < self.segments.len() ==> self.board.contains(#[trigger] self.segments[k])
        &&& self.rendered <= self.segments.len()
        &&& (self.apple matches Some(a) ==> self.board.contains(a))
    }

    /// The cell of the head.
    pub open spec fn head(self) -> Position {
        self.segments[0]
    }

    /// The number of segments the snake has, rendered or not.
    pub open spec fn logical_length(self) -> nat {
        self.segments.len()
    }

    /// Whether some segment lies on `p`.
    pub open spec fn occupies(self, p: Position) -> bool {
        self.segments.contains(p)
    }

    /// Whether a segment other than the head lies on the head's cell.
    pub open spec fn head_hits_body(self) -> bool {
        exists|k: int| 1 <= k < self.segments.len() && #[trigger] self.segments[k] == self.head()
    }

    /// Whether the board has a cell without a segment on it.
    pub open spec fn has_free_cell(self) -> bool {
        exists|p: Position| self.board.contains(p) && !self.occupies(p)
    }

    /// The start of a round on `board`: two segments at the centre, the
    /// head one column to the right of the tail, heading right, nothing
    /// owed, a full cooldown ahead and no apple.
    pub open spec fn initial(board: Board) -> GameView {
        let tail = Position { i: board.rows / 2, j: board.cols / 2 };
        GameView {
            board,
            segments: seq![board.neighbour(tail, Direction::Right), tail],
            heading: Direction::Right,
            pending: Direction::Right,
            rendered: INITIAL_LENGTH as nat,
            cooldown: STEP_INTERVAL as nat,
            apple: None,
            state: GameState::Playing,
        }
    }

    /// Records what the keys ask for; without a key the earlier request
    /// stands.
    pub open spec fn steer(self, intents: DirectionIntents) -> GameView {
        match intents.chosen() {
            Some(d) => GameView { pending: d, ..self },
            None => self,
        }
    }

    /// The heading of the next step: the pending one, unless that would
    /// turn the snake back onto itself.
    pub open spec fn committed_heading(self) -> Direction {
        if self.pending == self.heading.opposite() {
            self.heading
        } else {
            self.pending
        }
    }

    /// Moves the snake one cell: the head goes to its neighbour in the
    /// committed heading, every other segment to where its predecessor
    /// was, and the cooldown starts over.
    pub open spec fn advance(self) -> GameView {
        let heading = self.committed_heading();
        GameView {
            heading,
            segments: seq![self.board.neighbour(self.head(), heading)] + self.segments.drop_last(),
            cooldown: STEP_INTERVAL as nat,
            ..self
        }
    }

    /// Where a new last segment goes: one cell further along the line from
    /// the segment before the tail through the tail. A snake of one segment
    /// grows into the cell behind its head.
    pub open spec fn tail_extension(self) -> Position {
        let n = self.segments.len() as int;
        if n >= 2 {
            self.board.reflect(self.segments[n - 2], self.segments[n - 1])
        } else {
            self.board.neighbour(self.head(), self.heading.opposite())
        }
    }

    /// Eats the apple: it disappears and the body gains a segment at
    /// [`GameView::tail_extension`]. The rendered count stays.
    pub open spec fn grow(self) -> GameView {
        GameView { segments: self.segments.push(self.tail_extension()), apple: None, ..self }
    }

    /// Whether the move just made put the head on the apple without
    /// running into the body.
    pub open spec fn eats(self) -> bool {
        !self.head_hits_body() && self.apple == Some(self.head())
    }

    /// One step: move, then end the round if the head ran into the body,
    /// else eat the apple if the head is on it.
    pub open spec fn step(self) -> GameView {
        let moved = self.advance();
        if moved.head_hits_body() {
            GameView { state: GameState::GameOver, ..moved }
        } else if moved.eats() {
            moved.grow()
        } else {
            moved
        }
    }

    /// Whether a call with `elapsed` nanoseconds makes the snake step.
    pub open spec fn step_due(self, elapsed: nat) -> bool {
        self.state == GameState::Playing && elapsed >= self.cooldown
    }

    /// One call of the tick. A finished round stays as it is. A running
    /// one records the keys, then either steps or counts the cooldown
    /// down by `elapsed`.
    pub open spec fn tick(self, elapsed: nat, intents: DirectionIntents) -> GameView {
        if self.state == GameState::GameOver {
            self
        } else if elapsed >= self.cooldown {
            self.steer(intents).step()
        } else {
            GameView { cooldown: (self.cooldown - elapsed) as nat, ..self.steer(intents) }
        }
    }

    /// What the tick tells the driver.
    pub open spec fn report(self, elapsed: nat, intents: DirectionIntents) -> TickReport {
        let after = self.tick(elapsed, intents);
        let moved = self.steer(intents).advance();
        let stepped = self.step_due(elapsed);
        TickReport {
            head: after.head(),
            stepped,
            collided: stepped && moved.head_hits_body(),
            ate_apple: stepped && moved.eats(),
            growth_owed: after.rendered < after.segments.len(),
        }
    }

    /// The segment that is handed out for rendering next, if one is owed.
    pub open spec fn next_unrendered(self) -> Option<Position> {
        if self.rendered < self.segments.len() {
            Some(self.segments[self.rendered as int])
        } else {
            None
        }
    }

    /// Hands out at most one owed segment.
    pub open spec fn materialize(self) -> GameView {
        if self.rendered < self.segments.len() {
            GameView { rendered: self.rendered + 1, ..self }
        } else {
            self
        }
    }

    /// Puts the apple on `p`.
    pub open spec fn with_apple(self, p: Position) -> GameView {
        GameView { apple: Some(p), ..self }
    }

    /// Whether an apple may be put on `p`: there is none, and `p` is a cell
    /// of the board without a segment on it.
    pub open spec fn accepts_apple(self, p: Position) -> bool {
        self.apple is None && self.board.contains(p) && !self.occupies(p)
    }

    /// The state after a whole sequence of ticks, each given as elapsed
    /// time and keys, applied in order.
    pub open spec fn run(self, inputs: Seq<(nat, DirectionIntents)>) -> GameView
        decreases inputs.len(),
    {
        if inputs.len() == 0 {
            self
        } else {
            self.run(inputs.drop_last()).tick(inputs.last().0, inputs.last().1)
        }
    }
}

} // verus!
