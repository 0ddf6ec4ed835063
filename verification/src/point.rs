//! Cells of the grid.

use vstd::prelude::*;
use crate::types::Direction;

verus! {

/// A cell of the grid, or a position outside of it.
#[derive(Debug, PartialEq, Eq, Clone, Copy, Structural)]
pub struct Point {
    pub x: i32,
    pub y: i32,
}

impl Point {
    /// Whether the neighbour of `self` in `direction` still has `i32` coordinates.
    pub open spec fn can_step(self, direction: Direction) -> bool {
        &&& i32::MIN <= self.x + direction.dx() <= i32::MAX
        &&& i32::MIN <= self.y + direction.dy() <= i32::MAX
    }

    /// The neighbour of `self` in `direction`.
    pub open spec fn step(self, direction: Direction) -> Point
        recommends
            self.can_step(direction),
    {
        Point { x: (self.x + direction.dx()) as i32, y: (self.y + direction.dy()) as i32 }
    }

    /// Whether `self` lies outside a board of `width` by `height` cells.
    pub open spec fn outside(self, width: int, height: int) -> bool {
        self.x < 0 || self.y < 0 || self.x >= width || self.y >= height
    }

    pub fn new(x: i32, y: i32) -> (point: Point)
        ensures
            point == (Point { x, y }),
    {
        Point { x, y }
    }

    /// The neighbouring cell in `direction`: north is up (`y - 1`), south is
    /// down (`y + 1`), east is right (`x + 1`) and west is left (`x - 1`).
    pub fn add_direction(&self, direction: &Direction) -> (moved: Point)
        requires
            self.can_step(*direction),
        ensures
            moved == self.step(*direction),
            moved.x == self.x + direction.dx(),
            moved.y == self.y + direction.dy(),
    {
        match direction {
            Direction::North => Point::new(self.x, self.y - 1),
            Direction::South => Point::new(self.x, self.y + 1),
            Direction::East => Point::new(self.x + 1, self.y),
            Direction::West => Point::new(self.x - 1, self.y),
        }
    }

    /// Whether `self` lies outside a board of `width` by `height` cells.
    pub fn is_outside(&self, width: i32, height: i32) -> (outside: bool)
        ensures
            outside == self.outside(width as int, height as int),
    {
        self.x < 0 || self.y < 0 || self.x >= width || self.y >= height
    }

    /// A step changes exactly one coordinate, and that one by exactly one.
    pub proof fn lemma_step_moves_one_cell(self, direction: Direction)
        requires
            self.can_step(direction),
        ensures
            ({
                let moved = self.step(direction);
                ||| moved.x == self.x && (moved.y == self.y + 1 || moved.y == self.y - 1)
                ||| moved.y == self.y && (moved.x == self.x + 1 || moved.x == self.x - 1)
            }),
            direction == Direction::North ==> self.step(direction) == (Point { x: self.x, y: (self.y - 1) as i32 }),
            direction == Direction::South ==> self.step(direction) == (Point { x: self.x, y: (self.y + 1) as i32 }),
            direction == Direction::East ==> self.step(direction) == (Point { x: (self.x + 1) as i32, y: self.y }),
            direction == Direction::West ==> self.step(direction) == (Point { x: (self.x - 1) as i32, y: self.y }),
    {
    }
}

} // verus!
