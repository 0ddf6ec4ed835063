//! The task that owns one game. It takes commands one at a time, applies
//! each to its game and says what to answer and what to do next.

use vstd::prelude::*;
use crate::chance::{is_identifier, new_identifier};
use crate::game::{Game, GameView};
use crate::state::{shown, GameState, GameStateView};
use crate::types::{Direction, GameError, JoinGameReply, JoinGameReplyView};

verus! {

/// The seconds that players are given to get ready between the start of a
/// game and its first tick.
pub const START_DELAY_SECS: u64 = 3;

/// What a task can be asked to do.
#[derive(Debug)]
pub enum GameCommand {
    /// Record a player's vote and show the game.
    UpdateGame { user_id: String, direction: Direction },
    /// Show the game to a player.
    GameStatus { user_id: String },
    /// Let a new player in.
    JoinGame,
    /// Start the clock of the game.
    StartGame { user_id: String },
    /// Make one step. Only the clock sends this.
    Tick,
}

/// What a task answers to a command.
#[derive(Debug)]
pub enum GameReply {
    /// The answer to `UpdateGame` and to `GameStatus`.
    State(Result<GameState, GameError>),
    /// The answer to `JoinGame`.
    Joined(Result<JoinGameReply, GameError>),
    /// The answer to `StartGame`: `None` where the game was started.
    Started(Option<GameError>),
    /// What a `Tick` has led to. Nobody waits for it.
    Ticked(Result<GameState, GameError>),
}

/// What whoever runs the task has to do after a command.
#[derive(Debug, Clone, Copy, PartialEq, Eq, Structural)]
pub enum TaskEffect {
    /// Wait for the next command.
    Continue,
    /// Start the clock: after `delay_secs` seconds, send a `Tick` every
    /// `period_millis` milliseconds, and then wait for the next command.
    StartTicker { delay_secs: u64, period_millis: u64 },
    /// The game is over: take no more commands.
    Exit,
    /// The task has failed: take no more commands.
    Abort,
}

/// Whether a task still takes commands.
#[derive(Debug, Clone, Copy, PartialEq, Eq, Structural)]
pub enum TaskStatus {
    /// The task takes commands.
    Running,
    /// The game has ended and the task with it.
    Retired,
    /// The task has failed: a counter of its game was used up, or no free
    /// cell was found for the food.
    Failed,
}

/// An answer and what to do next.
#[derive(Debug)]
pub struct Step {
    pub reply: GameReply,
    pub effect: TaskEffect,
}

/// A task as plain mathematical values.
pub struct GameTaskView {
    /// The game that the task owns.
    pub game: GameView,
    /// The time between two ticks.
    pub tick_duration_millis: u64,
    /// Whether the clock of the game has been started.
    pub started: bool,
    /// Whether the task still takes commands.
    pub status: TaskStatus,
}

/// An answer to a join, as plain mathematical values.
pub open spec fn welcomed(answer: Result<JoinGameReply, GameError>) -> Result<
    JoinGameReplyView,
    GameError,
> {
    match answer {
        Ok(reply) => Ok(reply@),
        Err(error) => Err(error),
    }
}

impl GameTaskView {
    /// The task of a new game on a board of `width` columns and `height`
    /// rows, with a clock that has not been started.
    pub open spec fn initial(width: int, height: int, tick_duration_millis: u64) -> GameTaskView {
        GameTaskView {
            game: GameView::initial(height, width),
            tick_duration_millis,
            started: false,
            status: TaskStatus::Running,
        }
    }

    /// The task with the status `Failed`.
    pub open spec fn failed(self) -> GameTaskView {
        GameTaskView { status: TaskStatus::Failed, ..self }
    }

    /// The task with `game` as its game.
    pub open spec fn with_game(self, game: GameView) -> GameTaskView {
        GameTaskView { game, ..self }
    }

    /// The answer to a player who asks to see the game.
    pub open spec fn status_reply(self, user: Seq<char>) -> Result<GameStateView, GameError> {
        if self.status != TaskStatus::Running {
            Err(GameError::Internal)
        } else if !self.game.users.contains(user) {
            Err(GameError::InvalidUser)
        } else {
            Ok(self.game.snapshot())
        }
    }

    /// The task after the vote of `user` for `direction`. Only the vote of
    /// a player who has joined is recorded.
    pub open spec fn voted(self, user: Seq<char>, direction: Direction) -> GameTaskView {
        if self.status != TaskStatus::Running || !self.game.users.contains(user) {
            self
        } else if self.game.version >= usize::MAX {
            self.failed()
        } else {
            self.with_game(self.game.with_vote(user, direction))
        }
    }

    /// The answer to the vote of `user` for `direction`: the game with the
    /// vote in it.
    pub open spec fn vote_reply(self, user: Seq<char>, direction: Direction) -> Result<
        GameStateView,
        GameError,
    > {
        if self.status != TaskStatus::Running {
            Err(GameError::Internal)
        } else if !self.game.users.contains(user) {
            Err(GameError::InvalidUser)
        } else if self.game.version >= usize::MAX {
            Err(GameError::Internal)
        } else {
            Ok(self.game.with_vote(user, direction).snapshot())
        }
    }

    /// Whether the task can let one more player in.
    pub open spec fn has_room(self) -> bool {
        self.game.version < usize::MAX && self.game.users.len() < u32::MAX
    }

    /// The task after `user` has joined its game.
    pub open spec fn joined_by(self, user: Seq<char>) -> GameTaskView {
        if self.status != TaskStatus::Running {
            self
        } else if !self.has_room() {
            self.failed()
        } else {
            self.with_game(self.game.with_user(user))
        }
    }

    /// The answer to a join under the name `user`.
    pub open spec fn join_reply(self, user: Seq<char>) -> Result<JoinGameReplyView, GameError> {
        if self.status != TaskStatus::Running || !self.has_room() {
            Err(GameError::Internal)
        } else {
            Ok(JoinGameReplyView { user_id: user, width: self.game.width, height: self.game.height })
        }
    }

    /// Whether a join can lead from `self` to `next` with the answer
    /// `reply`: the player joins under some identifier, which the answer
    /// names.
    pub open spec fn joined(self, next: GameTaskView, reply: Result<JoinGameReplyView, GameError>) -> bool {
        match reply {
            Ok(welcome) => {
                &&& is_identifier(welcome.user_id)
                &&& next == self.joined_by(welcome.user_id)
                &&& reply == self.join_reply(welcome.user_id)
            },
            Err(error) => {
                &&& self.status != TaskStatus::Running || !self.has_room()
                &&& error == GameError::Internal
                &&& next == if self.status == TaskStatus::Running {
                    self.failed()
                } else {
                    self
                }
            },
        }
    }

    /// The task after `user` has asked to start the game.
    pub open spec fn started_by(self, user: Seq<char>) -> GameTaskView {
        if self.status == TaskStatus::Running && self.game.users.contains(user) {
            GameTaskView { started: true, ..self }
        } else {
            self
        }
    }

    /// The answer to `user` asking to start the game: `Ok(true)` where the
    /// clock has to be started now, `Ok(false)` where it is running already.
    pub open spec fn start_reply(self, user: Seq<char>) -> Result<bool, GameError> {
        if self.status != TaskStatus::Running {
            Err(GameError::Internal)
        } else if !self.game.users.contains(user) {
            Err(GameError::InvalidUser)
        } else {
            Ok(!self.started)
        }
    }

    /// Whether the counters of the game allow one more tick.
    pub open spec fn can_tick(self) -> bool {
        self.game.game_over is None ==> self.game.version + 1 < usize::MAX
    }

    /// The task after a tick that has led its game to `game`.
    pub open spec fn after_tick(self, game: GameView) -> GameTaskView {
        GameTaskView {
            game,
            status: if game.game_over is Some {
                TaskStatus::Retired
            } else {
                TaskStatus::Running
            },
            ..self
        }
    }

    /// Whether a tick can lead from `self` to `next` with the outcome
    /// `reply`. The game makes one step and is shown as it is then. If that
    /// step ends the game, the task retires. If the snake has eaten and the
    /// game goes on, the food moves to a free cell; should none be found,
    /// the task fails.
    pub open spec fn ticked(self, next: GameTaskView, reply: Result<GameStateView, GameError>) -> bool {
        if self.status != TaskStatus::Running {
            next == self && reply == Err::<GameStateView, GameError>(GameError::Internal)
        } else if !self.can_tick() {
            next == self.failed() && reply == Err::<GameStateView, GameError>(GameError::Internal)
        } else if !self.game.needs_food() {
            &&& next == self.after_tick(self.game.stepped())
            &&& reply == Ok::<GameStateView, GameError>(self.game.stepped().snapshot())
        } else {
            match reply {
                Ok(state) => {
                    &&& next == self.with_game(self.game.stepped().with_food(next.game.food))
                    &&& self.game.stepped().has_free(next.game.food)
                    &&& state == next.game.snapshot()
                },
                Err(error) => {
                    &&& error == GameError::Internal
                    &&& next == self.with_game(self.game.stepped()).failed()
                },
            }
        }
    }

    /// What has to be done after a command that has led from `self` to
    /// `next`: start the clock if the command has started the game, take no
    /// more commands if the task has retired or failed, go on otherwise.
    pub open spec fn effect(self, next: GameTaskView) -> TaskEffect {
        if next.status == TaskStatus::Failed {
            TaskEffect::Abort
        } else if next.status == TaskStatus::Retired {
            TaskEffect::Exit
        } else if next.started && !self.started {
            TaskEffect::StartTicker {
                delay_secs: START_DELAY_SECS,
                period_millis: self.tick_duration_millis,
            }
        } else {
            TaskEffect::Continue
        }
    }

    /// Whether `command` can lead from `self` to `next` with `reply`.
    pub open spec fn answers(self, command: GameCommand, next: GameTaskView, reply: GameReply) -> bool {
        match command {
            GameCommand::UpdateGame { user_id, direction } => {
                &&& reply matches GameReply::State(answer)
                &&& shown(answer) == self.vote_reply(user_id@, direction)
                &&& next == self.voted(user_id@, direction)
            },
            GameCommand::GameStatus { user_id } => {
                &&& reply matches GameReply::State(answer)
                &&& shown(answer) == self.status_reply(user_id@)
                &&& next == self
            },
            GameCommand::JoinGame => {
                &&& reply matches GameReply::Joined(answer)
                &&& self.joined(next, welcomed(answer))
            },
            GameCommand::StartGame { user_id } => {
                &&& reply matches GameReply::Started(answer)
                &&& answer == match self.start_reply(user_id@) {
                    Ok(_) => None::<GameError>,
                    Err(error) => Some(error),
                }
                &&& next == self.started_by(user_id@)
            },
            GameCommand::Tick => {
                &&& reply matches GameReply::Ticked(answer)
                &&& self.ticked(next, shown(answer))
            },
        }
    }
}

impl GameTaskView {
    /// A task that has retired or failed stays as it is and answers every
    /// command with an internal error.
    pub proof fn lemma_gone_task_answers_nothing(
        self,
        command: GameCommand,
        next: GameTaskView,
        reply: GameReply,
    )
        requires
            self.status != TaskStatus::Running,
            self.answers(command, next, reply),
        ensures
            next == self,
            match reply {
                GameReply::State(answer) => shown(answer) == Err::<GameStateView, GameError>(
                    GameError::Internal,
                ),
                GameReply::Ticked(answer) => shown(answer) == Err::<GameStateView, GameError>(
                    GameError::Internal,
                ),
                GameReply::Joined(answer) => welcomed(answer) == Err::<JoinGameReplyView, GameError>(
                    GameError::Internal,
                ),
                GameReply::Started(answer) => answer == Some(GameError::Internal),
            },
    {
    }

    /// A game has one clock: the first start by a player who has joined
    /// asks for the clock, and no later start does.
    pub proof fn lemma_one_clock(self, first: Seq<char>, second: Seq<char>)
        requires
            self.status == TaskStatus::Running,
            !self.started,
            self.game.users.contains(first),
        ensures
            self.effect(self.started_by(first)) == (TaskEffect::StartTicker {
                delay_secs: START_DELAY_SECS,
                period_millis: self.tick_duration_millis,
            }),
            self.started_by(first).effect(self.started_by(first).started_by(second))
                == TaskEffect::Continue,
    {
    }

    /// The tick that ends a game retires its task, and the task shows the
    /// game as it ended.
    pub proof fn lemma_last_tick_retires(self, next: GameTaskView, reply: Result<GameStateView, GameError>)
        requires
            self.status == TaskStatus::Running,
            self.can_tick(),
            self.game.stepped().game_over is Some,
            self.ticked(next, reply),
        ensures
            next.status == TaskStatus::Retired,
            next.game == self.game.stepped(),
            reply == Ok::<GameStateView, GameError>(next.game.snapshot()),
            self.effect(next) == TaskEffect::Exit,
    {
    }
}

/// The task of one game: the game itself and what the task knows beside it.
pub struct GameTask {
    game: Game,
    tick_duration_millis: u64,
    started: bool,
    status: TaskStatus,
}

impl View for GameTask {
    type V = GameTaskView;

    closed spec fn view(&self) -> GameTaskView {
        GameTaskView {
            game: self.game@,
            tick_duration_millis: self.tick_duration_millis,
            started: self.started,
            status: self.status,
        }
    }
}

impl GameTask {
    /// The game of the task is well-formed.
    pub closed spec fn wf(&self) -> bool {
        self.game.wf()
    }

    /// A well-formed task has a well-formed game.
    pub proof fn lemma_wf(&self)
        requires
            self.wf(),
        ensures
            self@.game.wf(),
    {
        self.game.lemma_wf();
    }

    /// A task with a new game on a board of `width` columns and `height`
    /// rows, whose clock, once started, ticks every `tick_duration_millis`
    /// milliseconds.
    pub fn new(width: i32, height: i32, tick_duration_millis: u64) -> (task: GameTask)
        requires
            width > 0,
            height > 0,
        ensures
            task.wf(),
            task@ == GameTaskView::initial(width as int, height as int, tick_duration_millis),
    {
        let game = Game::new(height, width);
        proof {
            game.lemma_wf();
        }
        GameTask { game, tick_duration_millis, started: false, status: TaskStatus::Running }
    }

    /// Whether the task still takes commands.
    pub fn status(&self) -> (status: TaskStatus)
        ensures
            status == self@.status,
    {
        self.status
    }

    /// Shows the game to the player `user_id`.
    pub fn game_status(&mut self, user_id: String) -> (reply: Result<GameState, GameError>)
        requires
            old(self).wf(),
        ensures
            final(self).wf(),
            final(self)@ == old(self)@,
            shown(reply) == old(self)@.status_reply(user_id@),
    {
        if self.status != TaskStatus::Running {
            return Err(GameError::Internal);
        }
        if self.game.user_has_joined_game(&user_id) {
            Ok(self.game.into_game_state())
        } else {
            Err(GameError::InvalidUser)
        }
    }

    /// Records the vote of the player `user_id` for `direction` and shows
    /// the game with that vote in it.
    pub fn update_game(&mut self, user_id: String, direction: Direction) -> (reply: Result<
        GameState,
        GameError,
    >)
        requires
            old(self).wf(),
        ensures
            final(self).wf(),
            final(self)@ == old(self)@.voted(user_id@, direction),
            shown(reply) == old(self)@.vote_reply(user_id@, direction),
    {
        if self.status != TaskStatus::Running {
            return Err(GameError::Internal);
        }
        if !self.game.user_has_joined_game(&user_id) {
            return Err(GameError::InvalidUser);
        }
        if self.game.version() == usize::MAX {
            self.status = TaskStatus::Failed;
            return Err(GameError::Internal);
        }
        self.game.add_user_direction(user_id, direction);
        Ok(self.game.into_game_state())
    }

    /// Lets a player in under the name `user_id` and tells the player the
    /// size of the board.
    pub fn join_as(&mut self, user_id: String) -> (reply: Result<JoinGameReply, GameError>)
        requires
            old(self).wf(),
        ensures
            final(self).wf(),
            final(self)@ == old(self)@.joined_by(user_id@),
            welcomed(reply) == old(self)@.join_reply(user_id@),
    {
        if self.status != TaskStatus::Running {
            return Err(GameError::Internal);
        }
        proof {
            self.game.lemma_wf();
        }
        if self.game.version() == usize::MAX || self.game.user_count() >= 0xffff_ffff {
            self.status = TaskStatus::Failed;
            return Err(GameError::Internal);
        }
        let _user_is_added = self.game.add_user(user_id.clone());
        let (width, height) = self.game.get_dimensions();
        Ok(JoinGameReply { user_id, width: width as i32, height: height as i32 })
    }

    /// Lets a new player in under a fresh identifier and tells the player
    /// that identifier and the size of the board.
    pub fn join_game(&mut self) -> (reply: Result<JoinGameReply, GameError>)
        requires
            old(self).wf(),
        ensures
            final(self).wf(),
            old(self)@.joined(final(self)@, welcomed(reply)),
    {
        let user_id = new_identifier();
        self.join_as(user_id)
    }

    /// Starts the game for the player `user_id`. Returns `Ok(true)` if the
    /// clock has to be started now and `Ok(false)` if it was started before:
    /// a game has one clock, however often it is started.
    pub fn start_game(&mut self, user_id: String) -> (reply: Result<bool, GameError>)
        requires
            old(self).wf(),
        ensures
            final(self).wf(),
            final(self)@ == old(self)@.started_by(user_id@),
            reply == old(self)@.start_reply(user_id@),
    {
        if self.status != TaskStatus::Running {
            return Err(GameError::Internal);
        }
        if self.game.user_has_joined_game(&user_id) {
            let first = !self.started;
            self.started = true;
            return Ok(first);
        }
        Err(GameError::InvalidUser)
    }

    /// Makes one step of the game and shows the game as it is then.
    pub fn tick(&mut self) -> (reply: Result<GameState, GameError>)
        requires
            old(self).wf(),
        ensures
            final(self).wf(),
            old(self)@.ticked(final(self)@, shown(reply)),
    {
        if self.status != TaskStatus::Running {
            return Err(GameError::Internal);
        }
        proof {
            self.game.lemma_wf();
        }
        if self.game.game_over().is_none() && self.game.version() >= usize::MAX - 1 {
            self.status = TaskStatus::Failed;
            return Err(GameError::Internal);
        }
        match self.game.tick() {
            Ok(reason) => {
                if reason.is_some() {
                    self.status = TaskStatus::Retired;
                }
                proof {
                    self.game.lemma_wf();
                }
                Ok(self.game.into_game_state())
            },
            Err(_) => {
                self.status = TaskStatus::Failed;
                Err(GameError::Internal)
            },
        }
    }

    /// Applies `command` to the game and returns the answer together with
    /// what has to be done next.
    pub fn handle(&mut self, command: GameCommand) -> (step: Step)
        requires
            old(self).wf(),
        ensures
            final(self).wf(),
            old(self)@.answers(command, final(self)@, step.reply),
            step.effect == old(self)@.effect(final(self)@),
    {
        let was_started = self.started;
        let reply = match command {
            GameCommand::GameStatus { user_id } => GameReply::State(self.game_status(user_id)),
            GameCommand::UpdateGame { user_id, direction } => GameReply::State(
                self.update_game(user_id, direction),
            ),
            GameCommand::JoinGame => GameReply::Joined(self.join_game()),
            GameCommand::StartGame { user_id } => match self.start_game(user_id) {
                Ok(_) => GameReply::Started(None),
                Err(error) => GameReply::Started(Some(error)),
            },
            GameCommand::Tick => GameReply::Ticked(self.tick()),
        };
        let effect = match self.status {
            TaskStatus::Failed => TaskEffect::Abort,
            TaskStatus::Retired => TaskEffect::Exit,
            TaskStatus::Running => if self.started && !was_started {
                TaskEffect::StartTicker {
                    delay_secs: START_DELAY_SECS,
                    period_millis: self.tick_duration_millis,
                }
            } else {
                TaskEffect::Continue
            },
        };
        Step { reply, effect }
    }
}

} // verus!
