//! The snake of the single-player game.

use vstd::prelude::*;
use crate::body::{collides, moved, reaches, Body};
use crate::point::Point;
use crate::types::Direction;

verus! {

/// The snake as one player steers it: it moves like [`Body`], one cell at a
/// time, with the head in front.
pub struct Rusty {
    snake: Body,
}

impl View for Rusty {
    type V = Seq<Point>;

    /// The cells of the snake, head first.
    closed spec fn view(&self) -> Seq<Point> {
        self.snake@
    }
}

impl Rusty {
    /// A snake always has a head.
    pub open spec fn wf(&self) -> bool {
        self@.len() > 0
    }

    /// The direction of the last step, east before the first one.
    pub closed spec fn heading(&self) -> Direction {
        self.snake.heading()
    }

    /// A snake of three cells in row `starting_y`, with its head at `x = 2`
    /// and facing east.
    pub fn new(starting_y: i32) -> (rusty: Rusty)
        ensures
            rusty.wf(),
            rusty.heading() == Direction::East,
            rusty@ == seq![
                Point { x: 2, y: starting_y },
                Point { x: 1, y: starting_y },
                Point { x: 0, y: starting_y },
            ],
    {
        Rusty { snake: Body::new(starting_y) }
    }

    /// Moves the snake one cell in `direction` and returns whether it has
    /// grown: it grows exactly if its new head lies on `food`.
    pub fn move_in_direction(&mut self, direction: Direction, food: Point) -> (grew: bool)
        requires
            old(self).wf(),
            old(self)@[0].can_step(direction),
        ensures
            final(self).wf(),
            final(self).heading() == direction,
            final(self)@ == moved(old(self)@, direction, food),
            grew == reaches(old(self)@, direction, food),
            grew ==> final(self)@.len() == old(self)@.len() + 1,
            !grew ==> final(self)@.len() == old(self)@.len(),
    {
        self.snake.move_in_direction(direction, food)
    }

    /// The cell of the head.
    pub fn head(&self) -> (head: Point)
        requires
            self.wf(),
        ensures
            head == self@[0],
    {
        self.snake.head()
    }

    /// Whether the head lies on another cell of the snake.
    pub fn collide_with_self(&self) -> (hit: bool)
        requires
            self.wf(),
        ensures
            hit == collides(self@),
    {
        self.snake.is_collide_with_self()
    }

    /// The cells of the snake, head first.
    pub fn body(&self) -> (cells: Vec<Point>)
        ensures
            cells@ == self@,
    {
        self.snake.body()
    }
}

} // verus!
