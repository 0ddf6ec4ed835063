//! The directory of the games in play: it finds the task of a game by the
//! game's identifier and passes requests on to it.

use vstd::prelude::*;
use crate::chance::{is_identifier, new_identifier};
use crate::game_task::{welcomed, GameTask, GameTaskView};
use crate::roster::{lemma_table_entry, lemma_table_push, lemma_table_update, table, Roster};
use crate::state::{shown, GameState};
use crate::types::{Direction, GameError, JoinGameReply};

verus! {

/// What a requester is told who has asked a task to show its game:
/// the task's own answer or, where the task has left none because it is
/// gone, an internal error.
pub fn relay_state(answer: Option<Result<GameState, GameError>>) -> (reply: Result<
    GameState,
    GameError,
>)
    ensures
        reply == match answer {
            Some(result) => result,
            None => Err(GameError::Internal),
        },
{
    match answer {
        Some(result) => result,
        None => Err(GameError::Internal),
    }
}

/// What a requester is told who has asked a task to let a player in: the
/// task's welcome or, where the task has left none because it is gone, an
/// internal error.
pub fn relay_join(answer: Option<JoinGameReply>) -> (reply: Result<JoinGameReply, GameError>)
    ensures
        reply == match answer {
            Some(welcome) => Ok::<JoinGameReply, GameError>(welcome),
            None => Err(GameError::Internal),
        },
{
    match answer {
        Some(welcome) => Ok(welcome),
        None => Err(GameError::Internal),
    }
}

/// What a requester is told who has asked a task to start its game: the
/// task's own objection if it has one, success if it has none and, where
/// the task has left no answer because it is gone, an internal error.
pub fn relay_start(answer: Option<Option<GameError>>) -> (reply: Result<(), GameError>)
    ensures
        reply == match answer {
            Some(Some(game_error)) => Err::<(), GameError>(game_error),
            Some(None) => Ok(()),
            None => Err(GameError::Internal),
        },
{
    match answer {
        Some(game_error_opt) => match game_error_opt {
            Some(game_error) => Err(game_error),
            None => Ok(()),
        },
        None => Err(GameError::Internal),
    }
}

/// The tasks of the games in play, each under the identifier of its game.
pub struct GameManager {
    ids: Roster,
    games: Vec<GameTask>,
}

impl View for GameManager {
    type V = Map<Seq<char>, GameTaskView>;

    /// The task of each game in play.
    closed spec fn view(&self) -> Map<Seq<char>, GameTaskView> {
        table(self.ids.names(), self.tasks())
    }
}

impl Default for GameManager {
    /// A directory without games.
    fn default() -> (manager: GameManager)
        ensures
            manager.wf(),
            manager@ == Map::<Seq<char>, GameTaskView>::empty(),
    {
        GameManager::new()
    }
}

impl GameManager {
    /// The tasks in the order in which their games were created.
    closed spec fn tasks(&self) -> Seq<GameTaskView> {
        self.games@.map_values(|task: GameTask| task@)
    }

    /// Each game has one identifier and one well-formed task.
    pub closed spec fn wf(&self) -> bool {
        &&& self.ids.wf()
        &&& self.ids.names().len() == self.games@.len()
        &&& forall|i: int| 0 <= i < self.games@.len() ==> (#[trigger] self.games@[i]).wf()
    }

    /// The games of a well-formed directory are well-formed.
    pub proof fn lemma_wf(&self, game_id: Seq<char>)
        requires
            self.wf(),
            self@.dom().contains(game_id),
        ensures
            self@[game_id].game.wf(),
    {
        let place = self.ids.names().index_of(game_id);
        assert(self.ids.names()[place] == game_id);
        assert(self.games@[place].wf());
        self.games@[place].lemma_wf();
    }

    /// A directory without games.
    pub fn new() -> (manager: GameManager)
        ensures
            manager.wf(),
            manager@ == Map::<Seq<char>, GameTaskView>::empty(),
    {
        let manager = GameManager { ids: Roster::new(), games: Vec::new() };
        assert(manager@ =~= Map::<Seq<char>, GameTaskView>::empty());
        manager
    }

    /// The place of the game `game_id` among the tasks, if it is in play.
    fn find(&self, game_id: &String) -> (place: Option<usize>)
        requires
            self.wf(),
        ensures
            place is Some <==> self@.dom().contains(game_id@),
            place matches Some(index) ==> {
                &&& index < self.games@.len()
                &&& self.ids.names()[index as int] == game_id@
                &&& self@[game_id@] == self.games@[index as int]@
            },
    {
        let place = self.ids.position(game_id);
        proof {
            if let Some(index) = place {
                lemma_table_entry(self.ids.names(), self.tasks(), index as int);
            }
        }
        place
    }

    /// Follows a change to the task at `place` in the view of the directory.
    proof fn lemma_task_changed(&self, before: &GameManager, place: int)
        requires
            before.wf(),
            0 <= place < before.games@.len(),
            self.ids == before.ids,
            self.games@.len() == before.games@.len(),
            self.games@[place].wf(),
            forall|i: int|
                0 <= i < self.games@.len() && i != place ==> self.games@[i] == before.games@[i],
        ensures
            self.wf(),
            self@ == before@.insert(before.ids.names()[place], self.games@[place]@),
    {
        assert(self.tasks() =~= before.tasks().update(place, self.games@[place]@));
        lemma_table_update(before.ids.names(), before.tasks(), place, self.games@[place]@);
        assert forall|i: int| 0 <= i < self.games@.len() implies (#[trigger] self.games@[i]).wf() by {
            if i != place {
                assert(before.games@[i].wf());
            }
        }
    }

    /// Puts a new game in play under the identifier `game_id`, on a board
    /// of `width` columns and `height` rows and with a clock that ticks
    /// every `tick_duration_millis` milliseconds. A game that was in play
    /// under that identifier is replaced.
    pub fn create_game_as(
        &mut self,
        game_id: String,
        width: i32,
        height: i32,
        tick_duration_millis: u64,
    )
        requires
            old(self).wf(),
            width > 0,
            height > 0,
        ensures
            final(self).wf(),
            final(self)@ == old(self)@.insert(
                game_id@,
                GameTaskView::initial(width as int, height as int, tick_duration_millis),
            ),
    {
        let game = GameTask::new(width, height, tick_duration_millis);
        match self.ids.position(&game_id) {
            Some(place) => {
                self.games.set(place, game);
                proof {
                    self.lemma_task_changed(&*old(self), place as int);
                }
            },
            None => {
                proof {
                    lemma_table_push(self.ids.names(), self.tasks(), game_id@, game@);
                    assert(self.tasks().push(game@) =~= self.games@.push(game).map_values(
                        |task: GameTask| task@,
                    ));
                }
                self.ids.insert(game_id);
                self.games.push(game);
            },
        }
    }

    /// Puts a new game in play, on a board of `width` columns and `height`
    /// rows and with a clock that ticks every `tick_duration_millis`
    /// milliseconds, and returns the identifier it has given to the game.
    pub fn create_game(&mut self, width: i32, height: i32, tick_duration_millis: u64) -> (game_id:
        String)
        requires
            old(self).wf(),
            width > 0,
            height > 0,
        ensures
            final(self).wf(),
            is_identifier(game_id@),
            final(self)@ == old(self)@.insert(
                game_id@,
                GameTaskView::initial(width as int, height as int, tick_duration_millis),
            ),
    {
        let game_id = new_identifier();
        self.create_game_as(game_id.clone(), width, height, tick_duration_millis);
        game_id
    }

    /// Lets a new player into the game `game_id`.
    pub fn join_game(&mut self, game_id: String) -> (reply: Result<JoinGameReply, GameError>)
        requires
            old(self).wf(),
        ensures
            final(self).wf(),
            !old(self)@.dom().contains(game_id@) ==> {
                &&& welcomed(reply) == Err::<crate::types::JoinGameReplyView, GameError>(
                    GameError::InvalidGame,
                )
                &&& final(self)@ == old(self)@
            },
            old(self)@.dom().contains(game_id@) ==> {
                &&& final(self)@.dom().contains(game_id@)
                &&& final(self)@ == old(self)@.insert(game_id@, final(self)@[game_id@])
                &&& old(self)@[game_id@].joined(final(self)@[game_id@], welcomed(reply))
            },
    {
        match self.find(&game_id) {
            None => Err(GameError::InvalidGame),
            Some(place) => {
                let reply = self.games[place].join_game();
                proof {
                    self.lemma_task_changed(&*old(self), place as int);
                }
                reply
            },
        }
    }

    /// Starts the game `game_id` for the player `user_id`.
    pub fn start_game(&mut self, game_id: String, user_id: String) -> (reply: Result<(), GameError>)
        requires
            old(self).wf(),
        ensures
            final(self).wf(),
            !old(self)@.dom().contains(game_id@) ==> {
                &&& reply == Err::<(), GameError>(GameError::InvalidGame)
                &&& final(self)@ == old(self)@
            },
            old(self)@.dom().contains(game_id@) ==> {
                &&& final(self)@ == old(self)@.insert(
                    game_id@,
                    old(self)@[game_id@].started_by(user_id@),
                )
                &&& reply == match old(self)@[game_id@].start_reply(user_id@) {
                    Ok(_) => Ok::<(), GameError>(()),
                    Err(error) => Err(error),
                }
            },
    {
        match self.find(&game_id) {
            None => Err(GameError::InvalidGame),
            Some(place) => {
                let reply = self.games[place].start_game(user_id);
                proof {
                    self.lemma_task_changed(&*old(self), place as int);
                }
                match reply {
                    Ok(_) => Ok(()),
                    Err(game_error) => Err(game_error),
                }
            },
        }
    }

    /// Records the vote of the player `user_id` for `direction` in the game
    /// `game_id` and shows the game with that vote in it.
    pub fn update_game(&mut self, game_id: String, user_id: String, direction: Direction) -> (reply:
        Result<GameState, GameError>)
        requires
            old(self).wf(),
        ensures
            final(self).wf(),
            !old(self)@.dom().contains(game_id@) ==> {
                &&& shown(reply) == Err::<crate::state::GameStateView, GameError>(
                    GameError::InvalidGame,
                )
                &&& final(self)@ == old(self)@
            },
            old(self)@.dom().contains(game_id@) ==> {
                &&& final(self)@ == old(self)@.insert(
                    game_id@,
                    old(self)@[game_id@].voted(user_id@, direction),
                )
                &&& shown(reply) == old(self)@[game_id@].vote_reply(user_id@, direction)
            },
    {
        match self.find(&game_id) {
            None => Err(GameError::InvalidGame),
            Some(place) => {
                let reply = self.games[place].update_game(user_id, direction);
                proof {
                    self.lemma_task_changed(&*old(self), place as int);
                }
                reply
            },
        }
    }

    /// Shows the game `game_id` to the player `user_id`.
    pub fn game_status(&mut self, game_id: String, user_id: String) -> (reply: Result<
        GameState,
        GameError,
    >)
        requires
            old(self).wf(),
        ensures
            final(self).wf(),
            final(self)@ == old(self)@,
            !old(self)@.dom().contains(game_id@) ==> shown(reply) == Err::<
                crate::state::GameStateView,
                GameError,
            >(GameError::InvalidGame),
            old(self)@.dom().contains(game_id@) ==> shown(reply) == old(self)@[game_id@].status_reply(
                user_id@,
            ),
    {
        match self.find(&game_id) {
            None => Err(GameError::InvalidGame),
            Some(place) => {
                let reply = self.games[place].game_status(user_id);
                proof {
                    self.lemma_task_changed(&*old(self), place as int);
                    assert(self@ =~= old(self)@);
                }
                reply
            },
        }
    }

    /// Makes one step of the game `game_id` and shows the game as it is
    /// then. This is the tick of the game's clock, for whoever keeps the
    /// time.
    pub fn tick_game(&mut self, game_id: String) -> (reply: Result<GameState, GameError>)
        requires
            old(self).wf(),
        ensures
            final(self).wf(),
            !old(self)@.dom().contains(game_id@) ==> {
                &&& shown(reply) == Err::<crate::state::GameStateView, GameError>(
                    GameError::InvalidGame,
                )
                &&& final(self)@ == old(self)@
            },
            old(self)@.dom().contains(game_id@) ==> {
                &&& final(self)@.dom().contains(game_id@)
                &&& final(self)@ == old(self)@.insert(game_id@, final(self)@[game_id@])
                &&& old(self)@[game_id@].ticked(final(self)@[game_id@], shown(reply))
            },
    {
        match self.find(&game_id) {
            None => Err(GameError::InvalidGame),
            Some(place) => {
                let reply = self.games[place].tick();
                proof {
                    self.lemma_task_changed(&*old(self), place as int);
                }
                reply
            },
        }
    }
}

} // verus!
