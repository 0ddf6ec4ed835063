//! A game of snake that many players steer together: every player votes for
//! a direction, and at each tick the snake goes where most votes point.
//!
//! [`game::Game`] holds the rules of one game, [`game_task::GameTask`] the
//! task that owns a game and answers commands, and
//! [`game_manager::GameManager`] the directory that finds a game's task by
//! the game's identifier.

pub mod body;
pub mod chance;
pub mod game;
pub mod game_manager;
pub mod game_task;
pub mod input;
pub mod output;
pub mod point;
pub mod requested_direction;
pub mod roster;
pub mod rusty;
pub mod state;
pub mod types;

pub use crate::point::Point;
pub use crate::state::GameState;
pub use crate::types::{Direction, GameError, GameOverReason, JoinGameReply};
