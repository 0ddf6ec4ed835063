//! Small value types shared by every part of the game.

use vstd::prelude::*;

verus! {

/// One of the four ways the snake can travel on the grid.
///
/// The grid's origin is its top-left corner: `y` grows downwards, so `North`
/// lowers `y` and `South` raises it.
#[derive(Debug, Clone, Copy, PartialEq, Eq, Hash, Structural)]
pub enum Direction {
    North,
    South,
    East,
    West,
}

impl Direction {
    /// Change of the `x` coordinate made by one step in this direction.
    pub open spec fn dx(self) -> int {
        match self {
            Direction::East => 1,
            Direction::West => -1,
            _ => 0,
        }
    }

    /// Change of the `y` coordinate made by one step in this direction.
    pub open spec fn dy(self) -> int {
        match self {
            Direction::North => -1,
            Direction::South => 1,
            _ => 0,
        }
    }

    /// The number that stands for this direction on the wire:
    /// 0 is north, 1 east, 2 south and 3 west.
    pub open spec fn wire_index(self) -> int {
        match self {
            Direction::North => 0,
            Direction::East => 1,
            Direction::South => 2,
            Direction::West => 3,
        }
    }

    /// The direction that the number `index` stands for on the wire, if any.
    pub open spec fn of_wire_index(index: int) -> Option<Direction> {
        if index == 0 {
            Some(Direction::North)
        } else if index == 1 {
            Some(Direction::East)
        } else if index == 2 {
            Some(Direction::South)
        } else if index == 3 {
            Some(Direction::West)
        } else {
            None
        }
    }

    /// The wire number of this direction.
    pub fn index(self) -> (index: i32)
        ensures
            index == self.wire_index(),
    {
        match self {
            Direction::North => 0,
            Direction::East => 1,
            Direction::South => 2,
            Direction::West => 3,
        }
    }

    /// Reads a wire number. Numbers outside `0..=3` name no direction and
    /// give `None`, so that they can be turned away before they reach a game.
    pub fn from_index(index: i32) -> (direction: Option<Direction>)
        ensures
            direction == Direction::of_wire_index(index as int),
            direction is Some <==> 0 <= index <= 3,
            direction matches Some(d) ==> d.wire_index() == index,
    {
        if index == 0 {
            Some(Direction::North)
        } else if index == 1 {
            Some(Direction::East)
        } else if index == 2 {
            Some(Direction::South)
        } else if index == 3 {
            Some(Direction::West)
        } else {
            None
        }
    }

    /// Every direction moves along exactly one axis, by exactly one cell.
    pub proof fn lemma_unit_step(self)
        ensures
            (self.dx() == 0) != (self.dy() == 0),
            -1 <= self.dx() <= 1,
            -1 <= self.dy() <= 1,
            self == Direction::North ==> self.dx() == 0 && self.dy() == -1,
            self == Direction::South ==> self.dx() == 0 && self.dy() == 1,
            self == Direction::East ==> self.dx() == 1 && self.dy() == 0,
            self == Direction::West ==> self.dx() == -1 && self.dy() == 0,
    {
    }
}

/// Why a game has ended.
#[derive(Debug, Clone, Copy, PartialEq, Eq, Structural)]
pub enum GameOverReason {
    /// The head left the board.
    OutOfBounds,
    /// The head ran into another cell of the body.
    CollideWithSelf,
    /// The body fills every cell of the board.
    Winner,
}

/// What can go wrong with a request.
#[derive(Debug, Clone, Copy, PartialEq, Eq, Structural)]
pub enum GameError {
    /// The player has not joined the game.
    InvalidUser,
    /// No game has this identifier.
    InvalidGame,
    /// The game's task is gone: it has finished or failed.
    Internal,
}

impl GameError {
    /// Whether the request itself was wrong: it named a game that is not in
    /// play or a player who has not joined. An `Internal` failure is not the
    /// caller's fault.
    pub open spec fn blames_caller(self) -> bool {
        self != GameError::Internal
    }

    /// Whether the request itself was wrong, as opposed to a failure of the
    /// game's task.
    pub fn is_invalid_argument(&self) -> (invalid: bool)
        ensures
            invalid == self.blames_caller(),
    {
        match self {
            GameError::InvalidGame => true,
            GameError::InvalidUser => true,
            GameError::Internal => false,
        }
    }

    /// What to tell the caller about this failure.
    pub fn message(&self) -> (message: &'static str)
        ensures
            *self == GameError::InvalidGame ==> message@ == "Invalid Game ID. Create a game first."@,
            *self == GameError::InvalidUser ==> message@ == "Invalid User ID. Join a game first."@,
            *self == GameError::Internal ==> message@ == "Internal error"@,
    {
        match self {
            GameError::InvalidGame => "Invalid Game ID. Create a game first.",
            GameError::InvalidUser => "Invalid User ID. Join a game first.",
            GameError::Internal => "Internal error",
        }
    }
}

/// What a player learns on joining a game.
#[derive(Debug)]
pub struct JoinGameReply {
    /// The identifier under which the player is known from now on.
    pub user_id: String,
    /// The number of columns of the board.
    pub width: i32,
    /// The number of rows of the board.
    pub height: i32,
}

/// A [`JoinGameReply`] as plain mathematical values.
pub struct JoinGameReplyView {
    pub user_id: Seq<char>,
    pub width: int,
    pub height: int,
}

impl View for JoinGameReply {
    type V = JoinGameReplyView;

    open spec fn view(&self) -> JoinGameReplyView {
        JoinGameReplyView {
            user_id: self.user_id@,
            width: self.width as int,
            height: self.height as int,
        }
    }
}

} // verus!
