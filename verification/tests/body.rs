use rusty_game::body::Body;
use rusty_game::{Direction, Point};
use std::collections::{LinkedList, VecDeque};

const HEIGHT: i32 = 4;

#[test]
fn game_rusty_new() {
    let rusty = Body::new(HEIGHT / 2);

    let expected_body = VecDeque::from([
        Point::new(2, HEIGHT / 2),
        Point::new(1, HEIGHT / 2),
        Point::new(0, HEIGHT / 2),
    ]);

    assert_eq!(VecDeque::from(rusty.body()), expected_body);
}

#[test]
fn game_move_in_direction() {
    let mut rusty = Body::new(HEIGHT / 2);
    let food: Point = Point::new(4, HEIGHT / 2);

    let mut expected_body = VecDeque::new();
    for n in 1..4 {
        expected_body.push_front(Point::new(n, HEIGHT / 2))
    }

    let did_grow = rusty.move_in_direction(Direction::East, food);
    assert_eq!(did_grow, false);
    assert_eq!(VecDeque::from(rusty.body()), expected_body);
}

#[test]
fn game_move_in_direction_and_grow() {
    let mut rusty = Body::new(HEIGHT / 2);
    let food: Point = Point::new(3, HEIGHT / 2);

    let mut expected_body = VecDeque::new();
    for n in 0..4 {
        expected_body.push_front(Point::new(n, HEIGHT / 2))
    }

    let did_grow = rusty.move_in_direction(Direction::East, food);
    assert_eq!(did_grow, true);
    assert_eq!(VecDeque::from(rusty.body()), expected_body);
}

#[test]
fn game_collide_with_self() {
    let mut rusty = Body::new(HEIGHT / 2);
    let food: Point = Point::new(5, HEIGHT / 2);

    let mut expected_body = LinkedList::new();
    for n in 0..4 {
        expected_body.push_front(Point::new(n, HEIGHT / 2))
    }

    // Grow to a length of 5 to be large enough to hit self
    rusty.move_in_direction(Direction::East, Point::new(3, HEIGHT / 2));
    rusty.move_in_direction(Direction::East, Point::new(4, HEIGHT / 2));
    assert_eq!(rusty.is_collide_with_self(), false);

    // Move in a circle to hit self
    rusty.move_in_direction(Direction::South, food);
    rusty.move_in_direction(Direction::West, food);
    rusty.move_in_direction(Direction::North, food);
    assert_eq!(rusty.is_collide_with_self(), true);
    assert_eq!(rusty.body().len(), 5);
}

#[test]
fn a_new_body_faces_east() {
    let rusty = Body::new(7);
    assert_eq!(rusty.direction(), Direction::East);
    assert_eq!(rusty.head(), Point::new(2, 7));
    assert_eq!(rusty.len(), 3);
}

#[test]
fn a_move_without_food_keeps_the_length() {
    let mut rusty = Body::new(5);
    let food = Point::new(9, 9);
    for (direction, head) in [
        (Direction::North, Point::new(2, 4)),
        (Direction::East, Point::new(3, 4)),
        (Direction::South, Point::new(3, 5)),
        (Direction::South, Point::new(3, 6)),
        (Direction::West, Point::new(2, 6)),
    ] {
        let grew = rusty.move_in_direction(direction, food);
        assert!(!grew);
        assert_eq!(rusty.len(), 3);
        assert_eq!(rusty.head(), head);
        assert_eq!(rusty.direction(), direction);
    }
    assert_eq!(rusty.body(), vec![Point::new(2, 6), Point::new(3, 6), Point::new(3, 5)]);
}

#[test]
fn a_move_onto_food_adds_one_cell() {
    let mut rusty = Body::new(5);
    let grew = rusty.move_in_direction(Direction::North, Point::new(2, 4));
    assert!(grew);
    assert_eq!(rusty.len(), 4);
    assert_eq!(
        rusty.body(),
        vec![Point::new(2, 4), Point::new(2, 5), Point::new(1, 5), Point::new(0, 5)]
    );
    let grew = rusty.move_in_direction(Direction::North, Point::new(2, 4));
    assert!(!grew);
    assert_eq!(rusty.len(), 4);
}

#[test]
fn turning_back_hits_the_neck() {
    let mut rusty = Body::new(5);
    assert!(!rusty.is_collide_with_self());
    rusty.move_in_direction(Direction::West, Point::new(9, 9));
    assert_eq!(rusty.body(), vec![Point::new(1, 5), Point::new(2, 5), Point::new(1, 5)]);
    assert!(rusty.is_collide_with_self());
}

#[test]
fn a_path_that_never_crosses_itself_never_collides() {
    let mut rusty = Body::new(0);
    let far = Point::new(-100, -100);
    for step in 0..40 {
        let direction = if step % 2 == 0 { Direction::South } else { Direction::East };
        // every other step the snake eats and grows
        let food = if step % 4 == 0 { rusty.head().add_direction(&direction) } else { far };
        rusty.move_in_direction(direction, food);
        assert!(!rusty.is_collide_with_self());
    }
    assert_eq!(rusty.len(), 13);
}

#[test]
fn occupies_finds_exactly_the_cells_of_the_body() {
    let rusty = Body::new(3);
    assert!(rusty.occupies(Point::new(0, 3)));
    assert!(rusty.occupies(Point::new(1, 3)));
    assert!(rusty.occupies(Point::new(2, 3)));
    assert!(!rusty.occupies(Point::new(3, 3)));
    assert!(!rusty.occupies(Point::new(2, 2)));
}
