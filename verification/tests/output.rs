use rusty_game::output::{world_row, world_rows, Cell};
use rusty_game::{Direction, GameError, GameOverReason, GameState, Point};

/// The rows of the board as text: a dash for an empty cell, a star for the
/// food, the number of its column for a part of the snake.
fn drawn(game_state: &GameState) -> Vec<String> {
    world_rows(game_state)
        .iter()
        .map(|row| {
            row.iter()
                .map(|cell| match cell {
                    Cell::Empty => "-".to_string(),
                    Cell::Food => "*".to_string(),
                    Cell::Body(column) => column.to_string(),
                })
                .collect::<String>()
        })
        .collect()
}

/// The same rows, found by walking once through the snake's cells sorted by
/// row and column.
fn expected(game_state: &GameState) -> Vec<String> {
    let food = game_state.food;
    let mut sorted_body = game_state.body.clone();
    // sort by row, then by column
    sorted_body.sort_by_key(|point| (point.y, point.x));

    let mut rows = Vec::new();
    let mut point_inter = sorted_body.iter();
    let mut current_point = point_inter.next();
    for row_index in 0..game_state.height {
        let mut row = String::new();
        while let Some(point) = current_point {
            if point.y < row_index || point.x < 0 {
                current_point = point_inter.next();
            } else {
                break;
            }
        }
        for column_index in 0..game_state.width {
            let mut grid_point_output = "-".to_string();
            if food.y == row_index && food.x == column_index {
                grid_point_output = "*".to_string();
            }
            if let Some(point) = current_point {
                if point.y == row_index && point.x == column_index {
                    grid_point_output = column_index.to_string();
                    // Advance to the next point for the next loop to handle
                    current_point = point_inter.next();
                }
            }
            row.push_str(&grid_point_output);
        }
        rows.push(row);
    }
    rows
}

fn check(game_state: &GameState) -> Vec<String> {
    let rows = drawn(game_state);
    assert_eq!(rows, expected(game_state));
    assert_eq!(rows.len(), game_state.height.max(0) as usize);
    for (index, row) in world_rows(game_state).iter().enumerate() {
        assert_eq!(row, &world_row(game_state, index as i32));
        assert_eq!(row.len(), game_state.width.max(0) as usize);
    }
    rows
}

#[test]
fn output_missing_food() {
    let size = 10;
    let test_body = vec![
        Point { x: 1, y: 1 },
        Point { x: 2, y: 1 },
        Point { x: 3, y: 1 },
        Point { x: 4, y: 1 },
        Point { x: 5, y: 1 },
    ];

    let rows = check(&GameState {
        height: size,
        width: size,
        tick: 1000,
        game_over_reason: Some(GameOverReason::OutOfBounds),
        direction: Direction::North,
        num_users: 1,
        body: test_body,
        food: Point { x: 0, y: 2 },
    });
    assert_eq!(rows[0], "----------");
    assert_eq!(rows[1], "-12345----");
    assert_eq!(rows[2], "*---------");
}

#[test]
fn output() {
    let size = 20;
    let test_body = vec![
        Point::new(2, (size / 2) - 1),
        Point::new(2, size / 2),
        Point::new(1, size / 2),
        Point::new(0, size / 2),
    ];

    let rows = check(&GameState {
        height: size,
        width: size,
        tick: 1000,
        game_over_reason: Some(GameOverReason::OutOfBounds),
        direction: Direction::North,
        num_users: 1,
        body: test_body,
        food: Point::new(0, 0),
    });
    assert_eq!(rows[0], "*-------------------");
    assert_eq!(rows[9], "--2-----------------");
    assert_eq!(rows[10], "012-----------------");
}

#[test]
fn output_with_out_of_bounds_points() {
    let size = 20;
    let test_body = vec![
        Point::new(2, (size / 2) - 1),
        Point::new(2, size / 2),
        Point::new(1, size / 2),
        Point::new(0, size / 2),
        Point::new(-1, size / 2),
        Point::new(size + 1, size / 2),
        Point::new(0, -1),
        Point::new(0, size + 1),
    ];

    let rows = check(&GameState {
        height: size,
        width: size,
        tick: 1000,
        game_over_reason: Some(GameOverReason::OutOfBounds),
        direction: Direction::North,
        num_users: 1,
        body: test_body,
        food: Point::new(0, 0),
    });
    assert_eq!(rows[0], "*-------------------");
    assert_eq!(rows[10], "012-----------------");
    assert_eq!(rows[19], "--------------------");
}

#[test]
fn output_body_overlaps_food() {
    let size = 20;
    let head = Point::new(2, (size / 2) - 1);
    let test_body = vec![
        head,
        Point::new(2, size / 2),
        Point::new(1, size / 2),
        Point::new(0, size / 2),
    ];

    let rows = check(&GameState {
        height: size,
        width: size,
        tick: 1000,
        game_over_reason: Some(GameOverReason::OutOfBounds),
        direction: Direction::North,
        num_users: 1,
        body: test_body,
        food: head,
    });
    assert_eq!(rows[9], "--2-----------------");
}

#[test]
fn a_row_ends_where_the_snake_lies_on_itself() {
    let game_state = GameState {
        height: 3,
        width: 12,
        tick: 7,
        game_over_reason: Some(GameOverReason::CollideWithSelf),
        direction: Direction::West,
        num_users: 2,
        body: vec![
            Point::new(4, 1),
            Point::new(5, 1),
            Point::new(5, 0),
            Point::new(4, 0),
            Point::new(3, 0),
            Point::new(3, 1),
            Point::new(4, 1),
            Point::new(11, 1),
            Point::new(10, 2),
        ],
        food: Point::new(8, 1),
    };
    let rows = check(&game_state);
    assert_eq!(rows, vec!["---345------", "---34---*---", "----------10-"]);
    assert_eq!(world_row(&game_state, 1)[4], Cell::Body(4));
    assert_eq!(world_row(&game_state, 1)[5], Cell::Empty);
    assert_eq!(world_row(&game_state, 1)[8], Cell::Food);
}

#[test]
fn boards_without_cells_have_no_rows() {
    let mut game_state = GameState {
        height: 0,
        width: 5,
        tick: 0,
        game_over_reason: None,
        direction: Direction::East,
        num_users: 0,
        body: vec![Point::new(0, 0)],
        food: Point::new(0, 0),
    };
    assert!(check(&game_state).is_empty());
    game_state.height = -3;
    assert!(check(&game_state).is_empty());
    game_state.height = 2;
    game_state.width = 0;
    assert_eq!(check(&game_state), vec!["", ""]);
}

#[test]
fn failures_come_with_a_message() {
    assert_eq!(GameError::InvalidGame.message(), "Invalid Game ID. Create a game first.");
    assert_eq!(GameError::InvalidUser.message(), "Invalid User ID. Join a game first.");
    assert_eq!(GameError::Internal.message(), "Internal error");
    assert!(GameError::InvalidGame.is_invalid_argument());
    assert!(GameError::InvalidUser.is_invalid_argument());
    assert!(!GameError::Internal.is_invalid_argument());
}
