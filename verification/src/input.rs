//! What a player's key presses mean.

use vstd::prelude::*;
use crate::types::Direction;

verus! {

/// What a player has asked for with a line of input.
#[derive(Debug, Clone, Copy, PartialEq, Eq, Structural)]
pub enum UserInputOption {
    /// Steer the snake.
    Direction(Direction),
    /// Leave the game.
    Exit,
    /// Nothing that is understood: ask again.
    Retry,
}

/// What the line `key` asks for: `w`, `a`, `s` and `d` steer north, west,
/// south and east, `q` and `e` leave the game, and nothing else is understood.
pub open spec fn key_meaning(key: Seq<char>) -> UserInputOption {
    if key == seq!['w'] {
        UserInputOption::Direction(Direction::North)
    } else if key == seq!['d'] {
        UserInputOption::Direction(Direction::East)
    } else if key == seq!['s'] {
        UserInputOption::Direction(Direction::South)
    } else if key == seq!['a'] {
        UserInputOption::Direction(Direction::West)
    } else if key == seq!['q'] || key == seq!['e'] {
        UserInputOption::Exit
    } else {
        UserInputOption::Retry
    }
}

/// Reads a line of input, which the caller has trimmed and put in lower case.
pub fn parse_user_input(formatted_input: &str) -> (option: UserInputOption)
    ensures
        option == key_meaning(formatted_input@),
{
    proof {
        reveal_strlit("w");
        reveal_strlit("d");
        reveal_strlit("s");
        reveal_strlit("a");
        reveal_strlit("q");
        reveal_strlit("e");
        assert("w"@ =~= seq!['w']);
        assert("d"@ =~= seq!['d']);
        assert("s"@ =~= seq!['s']);
        assert("a"@ =~= seq!['a']);
        assert("q"@ =~= seq!['q']);
        assert("e"@ =~= seq!['e']);
    }
    let input = formatted_input.to_owned();
    if input == "w".to_owned() {
        UserInputOption::Direction(Direction::North)
    } else if input == "d".to_owned() {
        UserInputOption::Direction(Direction::East)
    } else if input == "s".to_owned() {
        UserInputOption::Direction(Direction::South)
    } else if input == "a".to_owned() {
        UserInputOption::Direction(Direction::West)
    } else if input == "q".to_owned() || input == "e".to_owned() {
        UserInputOption::Exit
    } else {
        UserInputOption::Retry
    }
}

} // verus!
