//! What players see of a game.

use vstd::prelude::*;
use crate::point::Point;
use crate::types::{Direction, GameError, GameOverReason};

verus! {

/// A picture of a game at one moment.
#[derive(Debug, PartialEq, Eq, Clone)]
pub struct GameState {
    /// The number of rows of the board.
    pub height: i32,
    /// The number of columns of the board.
    pub width: i32,
    /// How many steps the snake has made.
    pub tick: usize,
    /// Why the game has ended, `None` while it is running.
    pub game_over_reason: Option<GameOverReason>,
    /// Where the snake goes next: what the players voted for or, without
    /// votes, where it went last.
    pub direction: Direction,
    /// The number of players who have joined.
    pub num_users: u32,
    /// The cells of the snake, head first.
    pub body: Vec<Point>,
    /// The cell of the food.
    pub food: Point,
}

/// A [`GameState`] as plain mathematical values.
pub struct GameStateView {
    pub height: int,
    pub width: int,
    pub tick: nat,
    pub game_over_reason: Option<GameOverReason>,
    pub direction: Direction,
    pub num_users: nat,
    pub body: Seq<Point>,
    pub food: Point,
}

impl View for GameState {
    type V = GameStateView;

    open spec fn view(&self) -> GameStateView {
        GameStateView {
            height: self.height as int,
            width: self.width as int,
            tick: self.tick as nat,
            game_over_reason: self.game_over_reason,
            direction: self.direction,
            num_users: self.num_users as nat,
            body: self.body@,
            food: self.food,
        }
    }
}

impl GameState {
    /// A second picture that shows the same.
    pub fn duplicate(&self) -> (copy: GameState)
        ensures
            copy@ == self@,
    {
        GameState {
            height: self.height,
            width: self.width,
            tick: self.tick,
            game_over_reason: self.game_over_reason,
            direction: self.direction,
            num_users: self.num_users,
            body: self.body.clone(),
            food: self.food,
        }
    }
}

/// An answer that holds a picture of a game, with the picture as plain
/// mathematical values.
pub open spec fn shown(answer: Result<GameState, GameError>) -> Result<GameStateView, GameError> {
    match answer {
        Ok(state) => Ok(state@),
        Err(error) => Err(error),
    }
}

} // verus!
