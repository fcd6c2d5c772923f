//! Simulation core of a Snake game on a wrap-around grid.
//!
//! The crate owns the state of one round (board dimensions, the snake's
//! body, its heading, the cooldown between steps, the apple) and the rules
//! that advance it. A driver feeds it elapsed time and key state once per
//! frame and draws whatever the returned values describe; nothing in here
//! knows about windows, scenes or cameras.
//!
//! [`model`] states the rules as functions on a mathematical state,
//! [`snake`], [`apples`] and [`game`] implement them, and [`laws`] proves
//! what follows from them for every round.

pub mod apples;
pub mod game;
pub mod grid;
pub mod laws;
pub mod model;
pub mod snake;

pub use apples::{first_free_cell, occupied, spawn_apple, try_place_apple, MAX_APPLE_DRAWS};
pub use game::{restart, setup, Game};
pub use grid::{Board, Direction, Position, BOARD_SIZE_I, BOARD_SIZE_J};
pub use model::{DirectionIntents, GameState, GameView, TickReport, INITIAL_LENGTH, STEP_INTERVAL};
pub use snake::{move_snake, spawn_snake_tile};
