//! One game: the board, the snake, the food, the players and their votes.

use vstd::prelude::*;
use crate::body::{collides, lemma_moved_stays_distinct, moved, reaches, Body};
use crate::chance::random_below;
use crate::point::Point;
use crate::requested_direction::{leader, RequestedDirection};
use crate::roster::Roster;
use crate::state::{GameState, GameStateView};
use crate::types::{Direction, GameError, GameOverReason};

verus! {

/// How a step ends for a snake that now has the cells `body`, head first, on
/// a board of `width` by `height` cells. The first rule that applies
/// decides: a body that fills the board wins, a head outside the board loses,
/// and so does a head on another cell of the body.
pub open spec fn verdict(body: Seq<Point>, width: int, height: int) -> Option<GameOverReason>
    recommends
        body.len() > 0,
{
    if body.len() == width * height {
        Some(GameOverReason::Winner)
    } else if body[0].outside(width, height) {
        Some(GameOverReason::OutOfBounds)
    } else if collides(body) {
        Some(GameOverReason::CollideWithSelf)
    } else {
        None
    }
}

/// A game as plain mathematical values.
pub struct GameView {
    /// The number of rows.
    pub height: int,
    /// The number of columns.
    pub width: int,
    /// The cell of the food.
    pub food: Point,
    /// The direction of the snake's last step.
    pub direction: Direction,
    /// The cells of the snake, head first.
    pub body: Seq<Point>,
    /// Why the game has ended, `None` while it is running.
    pub game_over: Option<GameOverReason>,
    /// How many steps the snake has made.
    pub tick: nat,
    /// The latest vote of each player who has voted.
    pub votes: Map<Seq<char>, Direction>,
    /// The players who have joined.
    pub users: Set<Seq<char>>,
    /// A counter that goes up with every change to the game.
    pub version: nat,
}

impl GameView {
    /// A new game on a board of `height` rows and `width` columns: a snake
    /// of three cells in the middle row, its head at `x = 2` and facing
    /// east, the food in the middle of the board, no players and no votes.
    pub open spec fn initial(height: int, width: int) -> GameView {
        GameView {
            height,
            width,
            food: Point { x: (width / 2) as i32, y: (height / 2) as i32 },
            direction: Direction::East,
            body: seq![
                Point { x: 2, y: (height / 2) as i32 },
                Point { x: 1, y: (height / 2) as i32 },
                Point { x: 0, y: (height / 2) as i32 },
            ],
            game_over: None,
            tick: 0,
            votes: Map::empty(),
            users: Set::empty(),
            version: 1,
        }
    }

    /// What holds of every game: the board has cells, the snake has a head,
    /// the food lies on the board, and the game has changed more often than
    /// the snake has moved. While the game is running, no two cells of the
    /// snake are the same, and the head is on the board or in the column
    /// where it started.
    pub open spec fn wf(self) -> bool {
        &&& 0 < self.width <= i32::MAX
        &&& 0 < self.height <= i32::MAX
        &&& self.body.len() > 0
        &&& !self.food.outside(self.width, self.height)
        &&& self.tick < self.version
        &&& self.votes.dom().finite()
        &&& self.users.finite()
        &&& self.users.len() <= u32::MAX
        &&& self.game_over is None ==> {
            &&& self.body.no_duplicates()
            &&& 0 <= self.body[0].x < self.width || self.body[0].x == 2
            &&& 0 <= self.body[0].y < self.height
        }
    }

    /// The direction of the next step: the one the votes choose or, without
    /// votes, the one of the last step.
    pub open spec fn steering(self) -> Direction {
        match leader(self.votes) {
            Some(direction) => direction,
            None => self.direction,
        }
    }

    /// What players are shown of this game.
    pub open spec fn snapshot(self) -> GameStateView {
        GameStateView {
            height: self.height,
            width: self.width,
            tick: self.tick,
            game_over_reason: self.game_over,
            direction: self.steering(),
            num_users: self.users.len(),
            body: self.body,
            food: self.food,
        }
    }

    /// The game after one tick, before any new food is placed. A game that
    /// is over stays as it is. A running game moves its snake one cell in
    /// the direction of `steering`, counts the step and is judged by
    /// `verdict`.
    pub open spec fn stepped(self) -> GameView {
        if self.game_over is Some {
            self
        } else {
            let direction = self.steering();
            let body = moved(self.body, direction, self.food);
            GameView {
                direction,
                body,
                game_over: verdict(body, self.width, self.height),
                tick: self.tick + 1,
                version: self.version + 1,
                ..self
            }
        }
    }

    /// Whether the next tick has to place new food: the snake eats the food
    /// and the game goes on.
    pub open spec fn needs_food(self) -> bool {
        &&& self.game_over is None
        &&& reaches(self.body, self.steering(), self.food)
        &&& self.stepped().game_over is None
    }

    /// Whether `cell` is a cell of the board that the snake does not hold.
    pub open spec fn has_free(self, cell: Point) -> bool {
        !cell.outside(self.width, self.height) && !self.body.contains(cell)
    }

    /// Whether the snake holds no cell of the board, so that every cell of
    /// the board is free.
    pub open spec fn all_free(self) -> bool {
        forall|cell: Point|
            !cell.outside(self.width, self.height) ==> #[trigger] self.has_free(cell)
    }

    /// Whether no cell of the board is free.
    pub open spec fn none_free(self) -> bool {
        forall|cell: Point| !#[trigger] self.has_free(cell)
    }

    /// The game with the food at `food`.
    pub open spec fn with_food(self, food: Point) -> GameView {
        GameView { food, version: self.version + 1, ..self }
    }

    /// The game after `user` has voted for `direction`.
    pub open spec fn with_vote(self, user: Seq<char>, direction: Direction) -> GameView {
        GameView { votes: self.votes.insert(user, direction), version: self.version + 1, ..self }
    }

    /// The game after `user` has joined it.
    pub open spec fn with_user(self, user: Seq<char>) -> GameView {
        if self.users.contains(user) {
            self
        } else {
            GameView { users: self.users.insert(user), version: self.version + 1, ..self }
        }
    }

    /// A game that is over stays as it is at every tick, and so does what
    /// its players are shown, the reason and the version with it.
    pub proof fn lemma_over_is_final(self)
        requires
            self.game_over is Some,
        ensures
            self.stepped() == self,
            self.stepped().snapshot() == self.snapshot(),
            self.stepped().game_over == self.game_over,
            self.stepped().version == self.version,
            !self.needs_food(),
    {
    }

    /// A running game whose next step takes the head off the board is over
    /// after that step, for leaving the board unless the snake fills the
    /// board, and later ticks change nothing.
    pub proof fn lemma_leaving_the_board_ends_the_game(self)
        requires
            self.wf(),
            self.game_over is None,
            self.body[0].step(self.steering()).outside(self.width, self.height),
        ensures
            self.stepped().game_over == if moved(self.body, self.steering(), self.food).len()
                == self.width * self.height {
                Some(GameOverReason::Winner)
            } else {
                Some(GameOverReason::OutOfBounds)
            },
            self.stepped().stepped() == self.stepped(),
    {
    }

    /// Without votes the snake goes on in the direction of its last step.
    pub proof fn lemma_no_votes_go_straight(self)
        requires
            self.votes.dom().is_empty(),
            self.votes.dom().finite(),
        ensures
            self.steering() == self.direction,
    {
        crate::requested_direction::lemma_no_leader_without_votes(self.votes);
    }

    /// How many steps the head can make at most in the direction of
    /// `steering` before it has left the board.
    pub open spec fn runway(self) -> int
        recommends
            self.body.len() > 0,
    {
        let head = self.body[0];
        match self.steering() {
            Direction::North => head.y + 1,
            Direction::South => self.height - head.y,
            Direction::West => head.x + 1,
            Direction::East => if head.x < self.width {
                self.width - head.x
            } else {
                1
            },
        }
    }

    /// Whether the game's version counter has room for a run to the end of
    /// the game: two versions for each step that the snake can make. A
    /// game that is over needs none.
    pub open spec fn can_start(self) -> bool {
        self.game_over is None ==> self.version + 2 * self.runway() < usize::MAX
    }

    /// A game that is still running after a tick steers as before, towards
    /// an edge of the board that is one step closer. As long as nobody
    /// votes, a game therefore ends after `runway` ticks at the latest.
    pub proof fn lemma_running_out_of_board(self, food: Point)
        requires
            self.wf(),
            self.game_over is None,
            self.stepped().game_over is None,
        ensures
            self.runway() >= 2,
            self.stepped().steering() == self.steering(),
            self.stepped().runway() == self.runway() - 1,
            self.stepped().with_food(food).steering() == self.steering(),
            self.stepped().with_food(food).runway() == self.runway() - 1,
    {
    }

    /// A tick keeps a game well-formed.
    pub proof fn lemma_stepped_wf(self)
        requires
            self.wf(),
        ensures
            self.stepped().wf(),
    {
        if self.game_over is None {
            let direction = self.steering();
            let body = moved(self.body, direction, self.food);
            if verdict(body, self.width, self.height) is None {
                lemma_moved_stays_distinct(self.body, direction, self.food);
            }
        }
    }
}

/// The picture of the game that was handed out last, with the version of the
/// game that it shows.
struct GameStateCache {
    last_returned_game_state_version: usize,
    last_returned_game_state: Option<GameState>,
}

/// One game of snake that many players steer together.
pub struct Game {
    height: i32,
    width: i32,
    food: Point,
    rusty: Body,
    game_over: Option<GameOverReason>,
    epoch: usize,
    requested_directions: RequestedDirection,
    users: Roster,
    game_state_version: usize,
    game_state_cache: GameStateCache,
}

impl View for Game {
    type V = GameView;

    closed spec fn view(&self) -> GameView {
        GameView {
            height: self.height as int,
            width: self.width as int,
            food: self.food,
            direction: self.rusty.heading(),
            body: self.rusty@,
            game_over: self.game_over,
            tick: self.epoch as nat,
            votes: self.requested_directions@,
            users: self.users@,
            version: self.game_state_version as nat,
        }
    }
}

impl Game {
    /// The game is as `GameView::wf` says, and a picture kept for the
    /// current version shows the game as it is.
    pub closed spec fn wf(&self) -> bool {
        &&& self@.wf()
        &&& self.requested_directions.wf()
        &&& self.users.wf()
        &&& self.game_state_cache.last_returned_game_state_version <= self.game_state_version
        &&& self.game_state_cache.last_returned_game_state_version == self.game_state_version
            ==> self.cached() == Some(self@.snapshot())
    }

    /// The picture that is kept for the game's current version, if there is one.
    pub closed spec fn cached(&self) -> Option<GameStateView> {
        if self.game_state_cache.last_returned_game_state_version == self.game_state_version {
            match self.game_state_cache.last_returned_game_state {
                Some(state) => Some(state@),
                None => None,
            }
        } else {
            None
        }
    }

    /// A well-formed game has a well-formed view, and the picture it keeps,
    /// if any, shows the game as it is.
    pub proof fn lemma_wf(&self)
        requires
            self.wf(),
        ensures
            self@.wf(),
            self.cached() is Some ==> self.cached() == Some(self@.snapshot()),
    {
    }

    /// A new game on a board of `height` rows and `width` columns.
    pub fn new(height: i32, width: i32) -> (game: Game)
        requires
            height > 0,
            width > 0,
        ensures
            game.wf(),
            game.cached() is None,
            game@ == GameView::initial(height as int, width as int),
    {
        let game = Game {
            height,
            width,
            food: Point::new(width / 2, height / 2),
            rusty: Body::new(height / 2),
            game_over: None,
            epoch: 0,
            users: Roster::new(),
            requested_directions: RequestedDirection::new(),
            game_state_version: 1,
            game_state_cache: GameStateCache {
                last_returned_game_state_version: 0,
                last_returned_game_state: None,
            },
        };
        proof {
            let cells = game.rusty@;
            assert(cells[0] != cells[1] && cells[0] != cells[2] && cells[1] != cells[2]);
            assert(cells.no_duplicates());
        }
        game
    }

    /// The board's width and height.
    pub fn get_dimensions(&self) -> (dimensions: (u32, u32))
        requires
            self.wf(),
        ensures
            dimensions.0 == self@.width,
            dimensions.1 == self@.height,
    {
        (self.width as u32, self.height as u32)
    }

    /// The version of the game: a counter that goes up with every change.
    pub fn version(&self) -> (version: usize)
        ensures
            version == self@.version,
    {
        self.game_state_version
    }

    /// The number of players who have joined.
    pub fn user_count(&self) -> (count: usize)
        requires
            self.wf(),
        ensures
            count == self@.users.len(),
    {
        proof {
            self.users.lemma_view();
        }
        self.users.len()
    }

    /// Why the game has ended, `None` while it is running.
    pub fn game_over(&self) -> (reason: Option<GameOverReason>)
        ensures
            reason == self@.game_over,
    {
        self.game_over
    }

    /// Lets the player `user_id` join, and returns whether the player is new
    /// to the game.
    pub fn add_user(&mut self, user_id: String) -> (added: bool)
        requires
            old(self).wf(),
            old(self)@.version < usize::MAX,
            old(self)@.users.len() < u32::MAX,
        ensures
            final(self).wf(),
            added == !old(self)@.users.contains(user_id@),
            final(self)@ == old(self)@.with_user(user_id@),
    {
        proof {
            self.users.lemma_view();
        }
        let added = self.users.insert(user_id);
        if added {
            self.game_state_version += 1;
        }
        proof {
            self.users.lemma_view();
            assert(self@.users =~= old(self)@.with_user(user_id@).users);
        }
        added
    }

    /// Whether the player `user_id` has joined.
    pub fn user_has_joined_game(&self, user_id: &String) -> (joined: bool)
        ensures
            joined == self@.users.contains(user_id@),
    {
        self.users.contains(user_id)
    }

    /// Records the vote of `user_id` for `direction` in place of the
    /// player's earlier vote.
    pub fn add_user_direction(&mut self, user_id: String, direction: Direction)
        requires
            old(self).wf(),
            old(self)@.version < usize::MAX,
        ensures
            final(self).wf(),
            final(self)@ == old(self)@.with_vote(user_id@, direction),
    {
        self.requested_directions.add_direction(user_id.as_str(), direction);
        self.game_state_version += 1;
        proof {
            self.requested_directions.lemma_finite();
        }
    }

    /// Makes one step of the game without placing new food, and returns
    /// whether new food has to be placed: the snake has eaten and the game
    /// goes on. A game that is over stays as it is.
    pub fn advance(&mut self) -> (needs_food: bool)
        requires
            old(self).wf(),
            old(self)@.game_over is None ==> old(self)@.version < usize::MAX,
        ensures
            final(self).wf(),
            final(self)@ == old(self)@.stepped(),
            needs_food == old(self)@.needs_food(),
            old(self)@.game_over is Some ==> final(self).cached() == old(self).cached(),
    {
        if self.game_over.is_some() {
            return false;
        }
        proof {
            old(self)@.lemma_stepped_wf();
        }
        self.epoch += 1;
        self.game_state_version += 1;

        // Go where the players want to go, else straight on.
        let direction = match self.requested_directions.calculate_direction() {
            Some(user_selected_direction) => user_selected_direction,
            None => self.rusty.direction(),
        };

        // Move; the snake grows if it reaches the food.
        let did_grow = self.rusty.move_in_direction(direction, self.food);

        let area: u64 = self.area();
        let head_position = self.rusty.head();
        if self.rusty.len() as u64 == area {
            self.game_over = Some(GameOverReason::Winner);
        } else if head_position.is_outside(self.width, self.height) {
            self.game_over = Some(GameOverReason::OutOfBounds);
        } else if self.rusty.is_collide_with_self() {
            self.game_over = Some(GameOverReason::CollideWithSelf);
        }
        did_grow && self.game_over.is_none()
    }

    /// The number of cells of the board.
    fn area(&self) -> (area: u64)
        requires
            self.width > 0,
            self.height > 0,
        ensures
            area == self.width * self.height,
            area <= 0x3fff_ffff_0000_0001,
    {
        let width: u64 = self.width as u64;
        let height: u64 = self.height as u64;
        assert(width * height <= 0x7fff_ffff * 0x7fff_ffff) by (nonlinear_arith)
            requires
                0 < width <= 0x7fff_ffff,
                0 < height <= 0x7fff_ffff,
        ;
        width * height
    }

    /// Puts the food on `candidate` if that is a free cell of the board,
    /// and returns whether it did. A cell of the snake is not free.
    pub fn offer_food(&mut self, candidate: Point) -> (accepted: bool)
        requires
            old(self).wf(),
            old(self)@.version < usize::MAX,
        ensures
            final(self).wf(),
            accepted == old(self)@.has_free(candidate),
            accepted ==> final(self)@ == old(self)@.with_food(candidate),
            !accepted ==> final(self)@ == old(self)@ && final(self).cached() == old(self).cached(),
    {
        if candidate.is_outside(self.width, self.height) || self.rusty.occupies(candidate) {
            return false;
        }
        self.game_state_version += 1;
        self.food = candidate;
        true
    }

    /// A random cell of a board of `max_x` columns and `max_y` rows.
    fn random_point(max_x: i32, max_y: i32) -> (point: Point)
        requires
            max_x > 0,
            max_y > 0,
        ensures
            !point.outside(max_x as int, max_y as int),
    {
        Point::new(random_below(max_x), random_below(max_y))
    }

    /// Draws random cells until one is free and puts the food there. Gives
    /// up, and returns `false`, when twice as many draws as the board has
    /// cells, and one more, have all hit the snake.
    ///
    /// Chance decides wherever the board has both free cells and cells of
    /// the snake. Where every cell of the board is free, the first draw
    /// is taken and the food is placed; where none is free, it is not.
    pub fn generate_new_food(&mut self) -> (placed: bool)
        requires
            old(self).wf(),
            old(self)@.version < usize::MAX,
        ensures
            final(self).wf(),
            old(self)@.all_free() ==> placed,
            old(self)@.none_free() ==> !placed,
            placed ==> {
                &&& final(self)@ == old(self)@.with_food(final(self)@.food)
                &&& old(self)@.has_free(final(self)@.food)
            },
            !placed ==> final(self)@ == old(self)@ && final(self).cached() == old(self).cached(),
    {
        let limit: u64 = 2 * self.area();
        let mut retries: u64 = 0;
        loop
            invariant
                self.wf(),
                self@ == old(self)@,
                self@.version < usize::MAX,
                self.cached() == old(self).cached(),
                retries <= limit,
            decreases limit - retries,
        {
            let new_food_point = Self::random_point(self.width, self.height);
            if self.offer_food(new_food_point) {
                return true;
            }
            if retries == limit {
                return false;
            }
            retries += 1;
        }
    }

    /// Makes one step of the game: the snake moves where the votes send it,
    /// or straight on without votes; the game ends if the snake now fills
    /// the board, has left it or has run into itself, decided in that
    /// order; and if the snake has eaten and the game goes on, new food is
    /// placed on a free cell. A game that is over stays as it is.
    ///
    /// Returns why the game is over, or `None` while it is running. Fails
    /// with `GameError::Internal` if no free cell was found for the food.
    pub fn tick(&mut self) -> (outcome: Result<Option<GameOverReason>, GameError>)
        requires
            old(self).wf(),
            old(self)@.game_over is None ==> old(self)@.version + 1 < usize::MAX,
        ensures
            final(self).wf(),
            old(self)@.game_over is Some ==> final(self).cached() == old(self).cached(),
            !old(self)@.needs_food() ==> {
                &&& outcome == Ok::<Option<GameOverReason>, GameError>(final(self)@.game_over)
                &&& final(self)@ == old(self)@.stepped()
            },
            old(self)@.needs_food() ==> match outcome {
                Ok(reason) => {
                    &&& reason is None
                    &&& final(self)@ == old(self)@.stepped().with_food(final(self)@.food)
                    &&& old(self)@.stepped().has_free(final(self)@.food)
                },
                Err(error) => {
                    &&& error == GameError::Internal
                    &&& final(self)@ == old(self)@.stepped()
                },
            },
    {
        let did_grow = self.advance();
        if did_grow {
            if !self.generate_new_food() {
                return Err(GameError::Internal);
            }
        }
        Ok(self.game_over)
    }

    /// Whether `start` can be called: the version counter has room for a
    /// run to the end of the game.
    pub fn can_start(&self) -> (can: bool)
        requires
            self.wf(),
        ensures
            can == self@.can_start(),
    {
        if self.game_over.is_some() {
            return true;
        }
        let direction = match self.requested_directions.calculate_direction() {
            Some(top_direction) => top_direction,
            None => self.rusty.direction(),
        };
        let head = self.rusty.head();
        let runway: i64 = match direction {
            Direction::North => head.y as i64 + 1,
            Direction::South => self.height as i64 - head.y as i64,
            Direction::West => head.x as i64 + 1,
            Direction::East => if head.x < self.width {
                self.width as i64 - head.x as i64
            } else {
                1
            },
        };
        (self.game_state_version as u128) + 2 * (runway as u128) < usize::MAX as u128
    }

    /// Plays the game to its end with the votes as they are: the snake goes
    /// straight in the direction of `steering` until the game is over,
    /// which it is after `runway` steps at the latest.
    ///
    /// Returns why the game is over. Fails with `GameError::Internal` if the
    /// snake has eaten and no free cell was found for new food; the game
    /// then stops where it is, with the head on the food.
    pub fn start(&mut self) -> (outcome: Result<GameOverReason, GameError>)
        requires
            old(self).wf(),
            old(self)@.can_start(),
        ensures
            final(self).wf(),
            final(self)@.width == old(self)@.width,
            final(self)@.height == old(self)@.height,
            final(self)@.users == old(self)@.users,
            final(self)@.votes == old(self)@.votes,
            old(self)@.game_over is Some ==> final(self)@ == old(self)@,
            old(self)@.game_over is None ==> {
                &&& old(self)@.tick < final(self)@.tick <= old(self)@.tick + old(self)@.runway()
                &&& final(self)@.direction == old(self)@.steering()
            },
            match outcome {
                Ok(reason) => final(self)@.game_over == Some(reason),
                Err(error) => {
                    &&& error == GameError::Internal
                    &&& final(self)@.game_over is None
                    &&& final(self)@.body[0] == final(self)@.food
                },
            },
    {
        let ghost mut steps: int = 0;
        loop
            invariant
                self.wf(),
                self@.width == old(self)@.width,
                self@.height == old(self)@.height,
                self@.users == old(self)@.users,
                self@.votes == old(self)@.votes,
                self@.tick == old(self)@.tick + steps,
                0 <= steps,
                steps == 0 ==> self@ == old(self)@,
                old(self)@.game_over is Some ==> steps == 0,
                steps > 0 ==> self@.game_over is None && self@.direction == old(self)@.steering(),
                self@.game_over is None ==> {
                    &&& self@.steering() == old(self)@.steering()
                    &&& steps + self@.runway() <= old(self)@.runway()
                    &&& self@.version + 2 * self@.runway() < usize::MAX
                    &&& self@.runway() >= 1
                },
            decreases
                    if self@.game_over is None {
                        self@.runway()
                    } else {
                        0
                    },
        {
            let ghost before = self@;
            proof {
                self.lemma_wf();
                before.lemma_stepped_wf();
                if before.game_over is None && before.stepped().game_over is None {
                    before.lemma_running_out_of_board(before.food);
                }
            }
            let outcome = self.tick();
            proof {
                self.lemma_wf();
                if before.game_over is None && before.stepped().game_over is None {
                    before.lemma_running_out_of_board(self@.food);
                }
                steps = steps + if before.game_over is None {
                    1int
                } else {
                    0int
                };
            }
            match outcome {
                Ok(Some(game_over_reason)) => {
                    return Ok(game_over_reason);
                },
                Ok(None) => {},
                Err(error) => {
                    return Err(error);
                },
            }
        }
    }

    /// What players are shown of the game. As long as the game does not
    /// change, the picture made first is kept and handed out again.
    pub fn into_game_state(&mut self) -> (state: GameState)
        requires
            old(self).wf(),
        ensures
            final(self).wf(),
            final(self)@ == old(self)@,
            state@ == old(self)@.snapshot(),
            final(self).cached() == Some(state@),
    {
        // If there have been no updates to the game, return the previous picture.
        if self.game_state_version <= self.game_state_cache.last_returned_game_state_version {
            if let Some(state) = &self.game_state_cache.last_returned_game_state {
                return state.duplicate();
            }
        }
        proof {
            self.users.lemma_view();
        }
        let direction = match self.requested_directions.calculate_direction() {
            Some(top_direction) => top_direction,
            None => self.rusty.direction(),
        };
        let state = GameState {
            tick: self.epoch,
            game_over_reason: self.game_over,
            direction,
            body: self.rusty.body(),
            num_users: self.users.len() as u32,
            height: self.height,
            width: self.width,
            food: self.food,
        };
        self.game_state_cache = GameStateCache {
            last_returned_game_state_version: self.game_state_version,
            last_returned_game_state: Some(state.duplicate()),
        };
        state
    }
}

} // verus!
