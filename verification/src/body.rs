//! The snake's body: how it moves, grows and runs into itself.

use vstd::prelude::*;
use std::collections::VecDeque;
use crate::point::Point;
use crate::types::Direction;

verus! {

/// Whether a body made of `cells`, head first, reaches `food` with one step
/// in `direction`.
pub open spec fn reaches(cells: Seq<Point>, direction: Direction, food: Point) -> bool
    recommends
        cells.len() > 0,
{
    cells[0].step(direction) == food
}

/// The cells that stay where they are during one step: all of them when the
/// body grows, all but the tail otherwise.
pub open spec fn kept(cells: Seq<Point>, direction: Direction, food: Point) -> Seq<Point>
    recommends
        cells.len() > 0,
{
    if reaches(cells, direction, food) {
        cells
    } else {
        cells.drop_last()
    }
}

/// The body after one step in `direction`: the new head in front of the
/// cells that were kept.
pub open spec fn moved(cells: Seq<Point>, direction: Direction, food: Point) -> Seq<Point>
    recommends
        cells.len() > 0,
{
    seq![cells[0].step(direction)] + kept(cells, direction, food)
}

/// Whether the head shares its cell with another part of the body.
pub open spec fn collides(cells: Seq<Point>) -> bool {
    exists|i: int| 1 <= i < cells.len() && #[trigger] cells[i] == cells[0]
}

/// A step lengthens the body by one cell when it reaches the food and keeps
/// its length otherwise.
pub proof fn lemma_moved_len(cells: Seq<Point>, direction: Direction, food: Point)
    requires
        cells.len() > 0,
    ensures
        reaches(cells, direction, food) ==> moved(cells, direction, food).len() == cells.len() + 1,
        !reaches(cells, direction, food) ==> moved(cells, direction, food).len() == cells.len(),
        moved(cells, direction, food)[0] == cells[0].step(direction),
{
}

/// A body whose cells are all different does not collide with itself.
pub proof fn lemma_distinct_cells_do_not_collide(cells: Seq<Point>)
    requires
        cells.no_duplicates(),
    ensures
        !collides(cells),
{
}

/// After a step the body collides with itself exactly if the head has moved
/// onto a cell that the body kept.
pub proof fn lemma_moved_collides(cells: Seq<Point>, direction: Direction, food: Point)
    requires
        cells.len() > 0,
    ensures
        collides(moved(cells, direction, food)) <==> kept(cells, direction, food).contains(
            cells[0].step(direction),
        ),
{
    let after = moved(cells, direction, food);
    let rest = kept(cells, direction, food);
    let head = cells[0].step(direction);
    assert(after.len() == rest.len() + 1);
    assert(forall|i: int| 0 <= i < rest.len() ==> after[i + 1] == #[trigger] rest[i]);
    if collides(after) {
        let i = choose|i: int| 1 <= i < after.len() && #[trigger] after[i] == after[0];
        assert(rest[i - 1] == head);
    }
    if rest.contains(head) {
        let j = choose|j: int| 0 <= j < rest.len() && rest[j] == head;
        assert(after[j + 1] == after[0]);
    }
}

/// A body of distinct cells still has distinct cells after a step that does
/// not make it collide with itself.
pub proof fn lemma_moved_stays_distinct(cells: Seq<Point>, direction: Direction, food: Point)
    requires
        cells.len() > 0,
        cells.no_duplicates(),
        !collides(moved(cells, direction, food)),
    ensures
        moved(cells, direction, food).no_duplicates(),
{
    let after = moved(cells, direction, food);
    let rest = kept(cells, direction, food);
    assert(after.len() == rest.len() + 1);
    assert(forall|i: int| 0 <= i < rest.len() ==> after[i + 1] == #[trigger] rest[i]);
    assert forall|i: int, j: int| 0 <= i < after.len() && 0 <= j < after.len() && i != j implies after[i]
        != after[j] by {
        if i == 0 {
            assert(after[j] != after[0]);
        } else if j == 0 {
            assert(after[i] != after[0]);
        } else {
            assert(after[i] == rest[i - 1]);
            assert(after[j] == rest[j - 1]);
            assert(rest[i - 1] == cells[i - 1]);
            assert(rest[j - 1] == cells[j - 1]);
        }
    }
}

/// The snake: its cells from head to tail and the direction it last moved in.
pub struct Body {
    direction: Direction,
    body: VecDeque<Point>,
}

impl View for Body {
    type V = Seq<Point>;

    /// The cells of the body, head first.
    closed spec fn view(&self) -> Seq<Point> {
        self.body@
    }
}

impl Body {
    /// A body always has a head.
    pub open spec fn wf(&self) -> bool {
        self@.len() > 0
    }

    /// The direction of the last step, east before the first one.
    pub closed spec fn heading(&self) -> Direction {
        self.direction
    }

    /// A body of three cells in row `starting_y`, with its head at `x = 2`
    /// and facing east.
    pub fn new(starting_y: i32) -> (body: Body)
        ensures
            body.wf(),
            body.heading() == Direction::East,
            body@ == seq![
                Point { x: 2, y: starting_y },
                Point { x: 1, y: starting_y },
                Point { x: 0, y: starting_y },
            ],
    {
        let mut body: VecDeque<Point> = VecDeque::new();
        body.push_back(Point::new(2, starting_y));
        body.push_back(Point::new(1, starting_y));
        body.push_back(Point::new(0, starting_y));
        Body { direction: Direction::East, body }
    }

    /// Moves the body one cell in `direction`. The new head is put in front;
    /// the tail is dropped unless the new head lies on `food`.
    ///
    /// Returns whether the body has grown, that is whether the new head lies
    /// on `food`.
    pub fn move_in_direction(&mut self, direction: Direction, food: Point) -> (grew: bool)
        requires
            old(self).wf(),
            old(self)@[0].can_step(direction),
        ensures
            final(self).wf(),
            final(self).heading() == direction,
            final(self)@ == moved(old(self)@, direction, food),
            grew == reaches(old(self)@, direction, food),
            grew ==> final(self)@.len() == old(self)@.len() + 1,
            !grew ==> final(self)@.len() == old(self)@.len(),
    {
        self.direction = direction;
        let new_point = self.head().add_direction(&direction);
        self.body.push_front(new_point);
        let food_overlaps = new_point == food;
        if !food_overlaps {
            self.body.pop_back();
            assert(self.body@ == moved(old(self)@, direction, food));
        }
        food_overlaps
    }

    /// The cell of the head.
    pub fn head(&self) -> (head: Point)
        requires
            self.wf(),
        ensures
            head == self@[0],
    {
        self.body[0]
    }

    /// Whether the head lies on another cell of the body.
    pub fn is_collide_with_self(&self) -> (hit: bool)
        requires
            self.wf(),
        ensures
            hit == collides(self@),
    {
        let head = self.body[0];
        let mut index: usize = 1;
        while index < self.body.len()
            invariant
                1 <= index,
                self.body@.len() > 0,
                head == self.body@[0],
                forall|i: int| 1 <= i < index && i < self.body@.len() ==> self.body@[i] != head,
            decreases self.body@.len() - index,
        {
            if self.body[index] == head {
                return true;
            }
            index += 1;
        }
        false
    }

    /// Whether `point` is one of the body's cells.
    pub fn occupies(&self, point: Point) -> (found: bool)
        ensures
            found == self@.contains(point),
    {
        let mut index: usize = 0;
        while index < self.body.len()
            invariant
                forall|i: int| 0 <= i < index && i < self.body@.len() ==> self.body@[i] != point,
            decreases self.body@.len() - index,
        {
            if self.body[index] == point {
                return true;
            }
            index += 1;
        }
        false
    }

    /// The cells of the body, head first.
    pub fn body(&self) -> (cells: Vec<Point>)
        ensures
            cells@ == self@,
    {
        let mut cells: Vec<Point> = Vec::new();
        let mut index: usize = 0;
        while index < self.body.len()
            invariant
                index <= self.body@.len(),
                cells@ == self.body@.subrange(0, index as int),
            decreases self.body@.len() - index,
        {
            cells.push(self.body[index]);
            assert(cells@ == self.body@.subrange(0, index + 1));
            index += 1;
        }
        assert(cells@ == self.body@);
        cells
    }

    /// The number of cells.
    pub fn len(&self) -> (len: usize)
        ensures
            len == self@.len(),
    {
        self.body.len()
    }

    /// The direction of the last step, east before the first one.
    pub fn direction(&self) -> (direction: Direction)
        ensures
            direction == self.heading(),
    {
        self.direction
    }
}

} // verus!
