use rusty_game::rusty::Rusty;
use rusty_game::{Direction, Point};
use std::collections::LinkedList;

const HEIGHT: i32 = 4;

fn cells(rusty: &Rusty) -> LinkedList<Point> {
    rusty.body().into_iter().collect()
}

#[test]
fn main_rusty_new() {
    let rusty = Rusty::new(HEIGHT / 2);

    let expected_body = LinkedList::from([
        Point::new(2, HEIGHT / 2),
        Point::new(1, HEIGHT / 2),
        Point::new(0, HEIGHT / 2),
    ]);

    assert_eq!(cells(&rusty), expected_body);
}

#[test]
fn main_move_in_direction() {
    let mut rusty = Rusty::new(HEIGHT / 2);
    let food: Point = Point::new(4, HEIGHT / 2);

    let mut expected_body = LinkedList::new();
    for n in 1..4 {
        expected_body.push_front(Point::new(n, HEIGHT / 2))
    }

    let did_grow = rusty.move_in_direction(Direction::East, food);
    assert_eq!(did_grow, false);
    assert_eq!(cells(&rusty), expected_body);
}

#[test]
fn main_move_in_direction_and_grow() {
    let mut rusty = Rusty::new(HEIGHT / 2);
    let food: Point = Point::new(3, HEIGHT / 2);

    let mut expected_body = LinkedList::new();
    for n in 0..4 {
        expected_body.push_front(Point::new(n, HEIGHT / 2))
    }

    let did_grow = rusty.move_in_direction(Direction::East, food);
    assert_eq!(did_grow, true);
    assert_eq!(cells(&rusty), expected_body);
}

#[test]
fn main_collide_with_self() {
    let mut rusty = Rusty::new(HEIGHT / 2);
    let food: Point = Point::new(5, HEIGHT / 2);

    let mut expected_body = LinkedList::new();
    for n in 0..4 {
        expected_body.push_front(Point::new(n, HEIGHT / 2))
    }

    // Grow to a length of 5 to be large enough to hit self
    rusty.move_in_direction(Direction::East, Point::new(3, HEIGHT / 2));
    rusty.move_in_direction(Direction::East, Point::new(4, HEIGHT / 2));
    assert_eq!(rusty.collide_with_self(), false);

    // Move in a circle to hit self
    rusty.move_in_direction(Direction::South, food);
    rusty.move_in_direction(Direction::West, food);
    rusty.move_in_direction(Direction::North, food);
    assert_eq!(rusty.collide_with_self(), true);
    assert_eq!(rusty.body().len(), 5);
}

#[test]
fn rusty_reports_its_head() {
    let mut rusty = Rusty::new(1);
    assert_eq!(rusty.head(), Point::new(2, 1));
    rusty.move_in_direction(Direction::South, Point::new(0, 0));
    assert_eq!(rusty.head(), Point::new(2, 2));
}
