use rusty_game::game::Game;
use rusty_game::{Direction, GameError, GameOverReason, GameState, Point};

const HEIGHT: i32 = 4;

fn player(game: &mut Game, name: &str) {
    assert!(game.add_user(name.to_string()));
}

#[test]
fn into_game_state() {
    let mut game = Game::new(HEIGHT, HEIGHT);
    let game_state = game.into_game_state();

    let expected_body = vec![
        Point::new(2, HEIGHT / 2),
        Point::new(1, HEIGHT / 2),
        Point::new(0, HEIGHT / 2),
    ];

    assert_eq!(game_state.body, expected_body);
}

#[test]
fn a_new_game_is_shown_in_full() {
    let mut game = Game::new(10, 20);
    assert_eq!(
        game.into_game_state(),
        GameState {
            height: 10,
            width: 20,
            tick: 0,
            game_over_reason: None,
            direction: Direction::East,
            num_users: 0,
            body: vec![Point::new(2, 5), Point::new(1, 5), Point::new(0, 5)],
            food: Point::new(10, 5),
        }
    );
    assert_eq!(game.get_dimensions(), (20, 10));
    assert_eq!(game.version(), 1);
    assert_eq!(game.game_over(), None);
}

#[test]
fn without_votes_the_snake_goes_straight() {
    let mut game = Game::new(10, 10);
    assert_eq!(game.tick(), Ok(None));
    let state = game.into_game_state();
    assert_eq!(state.body, vec![Point::new(3, 5), Point::new(2, 5), Point::new(1, 5)]);
    assert_eq!(state.direction, Direction::East);
    assert_eq!(state.tick, 1);

    // a vote turns it, and once the votes are gone it keeps the new course
    game.add_user_direction("a".to_string(), Direction::South);
    assert_eq!(game.tick(), Ok(None));
    assert_eq!(game.into_game_state().body[0], Point::new(3, 6));
}

#[test]
fn the_snake_goes_where_most_votes_point() {
    let mut game = Game::new(10, 10);
    for (name, direction) in [
        ("a", Direction::North),
        ("b", Direction::South),
        ("c", Direction::South),
    ] {
        game.add_user_direction(name.to_string(), direction);
    }
    assert_eq!(game.into_game_state().direction, Direction::South);
    assert_eq!(game.tick(), Ok(None));
    let state = game.into_game_state();
    assert_eq!(state.body, vec![Point::new(2, 6), Point::new(2, 5), Point::new(1, 5)]);
    assert_eq!(state.tick, 1);
}

#[test]
fn eating_makes_the_snake_grow_and_moves_the_food() {
    let mut game = Game::new(10, 10);
    assert!(game.offer_food(Point::new(3, 5)));
    assert_eq!(game.into_game_state().food, Point::new(3, 5));

    assert_eq!(game.tick(), Ok(None));
    let state = game.into_game_state();
    assert_eq!(
        state.body,
        vec![Point::new(3, 5), Point::new(2, 5), Point::new(1, 5), Point::new(0, 5)]
    );
    assert!(!state.body.contains(&state.food));
    assert!(!state.food.is_outside(10, 10));
    assert_eq!(state.tick, 1);
}

#[test]
fn new_food_always_lies_on_a_free_cell_of_the_board() {
    for round in 0..50 {
        let mut game = Game::new(3, 4);
        // the snake fills the middle row up to x = 2; the food goes to (3, 1)
        assert!(game.offer_food(Point::new(3, 1)));
        assert_eq!(game.tick(), Ok(None), "round {}", round);
        let state = game.into_game_state();
        assert_eq!(state.body.len(), 4);
        assert!(!state.body.contains(&state.food));
        assert!(0 <= state.food.x && state.food.x < 4);
        assert!(0 <= state.food.y && state.food.y < 3);
    }
}

#[test]
fn food_is_not_put_on_the_snake() {
    let mut game = Game::new(10, 10);
    let before = game.version();
    assert!(!game.offer_food(Point::new(1, 5)));
    assert_eq!(game.into_game_state().food, Point::new(5, 5));
    assert_eq!(game.version(), before);
    // nor off the board
    for cell in [Point::new(-1, 0), Point::new(10, 0), Point::new(0, -1), Point::new(0, 10)] {
        assert!(!game.offer_food(cell));
    }
    assert_eq!(game.into_game_state().food, Point::new(5, 5));
    assert_eq!(game.version(), before);
    assert!(game.offer_food(Point::new(0, 0)));
    assert_eq!(game.into_game_state().food, Point::new(0, 0));
    assert_eq!(game.version(), before + 1);
}

#[test]
fn generate_new_food_finds_the_one_free_cell() {
    // a board of one row and four columns: the snake holds three cells
    let mut game = Game::new(1, 4);
    let mut placed = false;
    for _ in 0..1000 {
        let version = game.version();
        placed = game.generate_new_food();
        if placed {
            assert_eq!(game.version(), version + 1);
            break;
        }
        // a search that gives up leaves the game as it was
        assert_eq!(game.version(), version);
        assert_eq!(game.into_game_state().food, Point::new(2, 0));
    }
    assert!(placed);
    assert_eq!(game.into_game_state().food, Point::new(3, 0));
}

#[test]
fn a_full_board_has_no_room_for_food() {
    // one row of three cells, all held by the snake
    let mut game = Game::new(1, 3);
    let version = game.version();
    let before = game.into_game_state();
    assert!(!game.generate_new_food());
    assert_eq!(game.version(), version);
    assert_eq!(game.into_game_state(), before);
    for x in 0..3 {
        assert!(!game.offer_food(Point::new(x, 0)));
    }
}

#[test]
fn food_is_placed_at_once_where_the_whole_board_is_free() {
    // a board of one column: after one step north the snake lies beside it
    for _ in 0..20 {
        let mut game = Game::new(4, 1);
        game.add_user_direction("a".to_string(), Direction::North);
        assert_eq!(game.tick(), Ok(Some(GameOverReason::OutOfBounds)));
        let state = game.into_game_state();
        assert_eq!(state.body, vec![Point::new(2, 1), Point::new(2, 2), Point::new(1, 2)]);
        let version = game.version();
        assert!(game.generate_new_food());
        assert_eq!(game.version(), version + 1);
        let food = game.into_game_state().food;
        assert_eq!(food.x, 0);
        assert!(0 <= food.y && food.y < 4);
    }
}

#[test]
fn leaving_the_board_on_the_right_ends_the_game() {
    let mut game = Game::new(10, 10);
    for tick in 1..8 {
        assert_eq!(game.tick(), Ok(None), "tick {}", tick);
    }
    assert_eq!(game.into_game_state().body[0], Point::new(9, 5));
    assert_eq!(game.tick(), Ok(Some(GameOverReason::OutOfBounds)));
    let state = game.into_game_state();
    assert_eq!(state.body[0], Point::new(10, 5));
    assert_eq!(state.game_over_reason, Some(GameOverReason::OutOfBounds));
    assert_eq!(state.tick, 8);
}

#[test]
fn leaving_the_board_on_the_left_ends_the_game() {
    let mut game = Game::new(10, 10);
    game.add_user_direction("a".to_string(), Direction::North);
    assert_eq!(game.tick(), Ok(None));
    game.add_user_direction("a".to_string(), Direction::West);
    assert_eq!(game.tick(), Ok(None));
    assert_eq!(game.tick(), Ok(None));
    assert_eq!(game.into_game_state().body[0], Point::new(0, 4));
    assert_eq!(game.tick(), Ok(Some(GameOverReason::OutOfBounds)));
    assert_eq!(game.into_game_state().body[0], Point::new(-1, 4));
}

#[test]
fn leaving_the_board_at_the_top_or_bottom_ends_the_game() {
    for (direction, ticks, last) in [
        (Direction::North, 3, Point::new(2, -1)),
        (Direction::South, 2, Point::new(2, 4)),
    ] {
        let mut game = Game::new(4, 10);
        game.add_user_direction("a".to_string(), direction);
        for _ in 1..ticks {
            assert_eq!(game.tick(), Ok(None));
        }
        assert_eq!(game.tick(), Ok(Some(GameOverReason::OutOfBounds)));
        assert_eq!(game.into_game_state().body[0], last);
    }
}

#[test]
fn a_game_that_is_over_stays_as_it_is() {
    let mut game = Game::new(10, 4);
    assert_eq!(game.tick(), Ok(None));
    assert_eq!(game.tick(), Ok(Some(GameOverReason::OutOfBounds)));
    let version = game.version();
    let state = game.into_game_state();
    for _ in 0..5 {
        assert_eq!(game.tick(), Ok(Some(GameOverReason::OutOfBounds)));
        assert_eq!(game.version(), version);
        assert_eq!(game.into_game_state(), state);
        assert_eq!(game.game_over(), Some(GameOverReason::OutOfBounds));
    }
    assert_eq!(state.tick, 2);
}

#[test]
fn running_into_itself_ends_the_game() {
    let mut game = Game::new(10, 10);
    game.add_user_direction("a".to_string(), Direction::West);
    assert_eq!(game.tick(), Ok(Some(GameOverReason::CollideWithSelf)));
    let state = game.into_game_state();
    assert_eq!(state.body, vec![Point::new(1, 5), Point::new(2, 5), Point::new(1, 5)]);
    assert_eq!(state.game_over_reason, Some(GameOverReason::CollideWithSelf));
}

#[test]
fn filling_the_board_wins() {
    // one row of four cells: the snake holds three, the food is put on the fourth
    let mut game = Game::new(1, 4);
    assert!(game.offer_food(Point::new(3, 0)));
    assert_eq!(game.tick(), Ok(Some(GameOverReason::Winner)));
    let state = game.into_game_state();
    assert_eq!(state.body.len(), 4);
    assert_eq!(state.game_over_reason, Some(GameOverReason::Winner));
    // no food is drawn for a full board
    assert_eq!(state.food, Point::new(3, 0));
    assert_eq!(game.tick(), Ok(Some(GameOverReason::Winner)));
}

#[test]
fn a_full_board_wins_before_anything_else_is_looked_at() {
    // three cells, all held by the snake: the first step leaves the board,
    // and the snake still fills it
    let mut game = Game::new(1, 3);
    assert_eq!(game.tick(), Ok(Some(GameOverReason::Winner)));
    assert_eq!(game.into_game_state().body[0], Point::new(3, 0));
}

#[test]
fn leaving_the_board_counts_before_a_collision() {
    // on a board of one column the snake starts with its head off the board;
    // turning back puts the head on its own neck, which is off the board too
    let mut game = Game::new(4, 1);
    game.add_user_direction("a".to_string(), Direction::West);
    assert_eq!(game.tick(), Ok(Some(GameOverReason::OutOfBounds)));
    let state = game.into_game_state();
    assert_eq!(state.body, vec![Point::new(1, 2), Point::new(2, 2), Point::new(1, 2)]);
}

#[test]
fn the_picture_is_kept_while_nothing_changes() {
    let mut game = Game::new(10, 10);
    player(&mut game, "a");
    let first = game.into_game_state();
    let version = game.version();
    let second = game.into_game_state();
    assert_eq!(first, second);
    assert_eq!(game.version(), version);

    // every change shows in the next picture
    game.add_user_direction("a".to_string(), Direction::North);
    assert!(game.version() > version);
    let third = game.into_game_state();
    assert_eq!(third.direction, Direction::North);
    assert_eq!(GameState { direction: Direction::East, ..third.clone() }, first);

    game.add_user_direction("a".to_string(), Direction::South);
    assert_eq!(game.into_game_state().direction, Direction::South);

    player(&mut game, "b");
    assert_eq!(game.into_game_state().num_users, 2);

    assert_eq!(game.tick(), Ok(None));
    let fourth = game.into_game_state();
    assert_eq!(fourth.tick, 1);
    assert_eq!(fourth.body[0], Point::new(2, 6));
}

#[test]
fn players_are_known_once_they_have_joined() {
    let mut game = Game::new(10, 10);
    assert!(!game.user_has_joined_game(&"a".to_string()));
    assert!(game.add_user("a".to_string()));
    assert!(game.user_has_joined_game(&"a".to_string()));
    assert!(!game.user_has_joined_game(&"b".to_string()));
    assert!(!game.add_user("a".to_string()));
    assert_eq!(game.user_count(), 1);
    assert_eq!(game.into_game_state().num_users, 1);
}

#[test]
fn advance_says_when_food_is_needed() {
    let mut game = Game::new(10, 10);
    assert!(!game.advance());
    assert!(game.offer_food(Point::new(4, 5)));
    assert!(game.advance());
    assert_eq!(game.into_game_state().body.len(), 4);
    // the food still lies under the head until new food is placed
    assert_eq!(game.into_game_state().food, Point::new(4, 5));
    assert!(game.generate_new_food());
    assert_ne!(game.into_game_state().food, Point::new(4, 5));
}

#[test]
fn a_game_without_new_votes_runs_to_its_end() {
    // north from the middle of ten rows: six steps and the head is off the board
    let mut game = Game::new(10, 10);
    game.add_user_direction("solo".to_string(), Direction::North);
    assert!(game.can_start());
    assert_eq!(game.start(), Ok(GameOverReason::OutOfBounds));
    let state = game.into_game_state();
    assert_eq!(state.tick, 6);
    assert_eq!(state.body, vec![Point::new(2, -1), Point::new(2, 0), Point::new(2, 1)]);
    assert_eq!(state.direction, Direction::North);

    // a game that is over is over at once
    assert_eq!(game.start(), Ok(GameOverReason::OutOfBounds));
    assert_eq!(game.into_game_state(), state);
}

#[test]
fn a_game_without_votes_runs_east() {
    let mut game = Game::new(6, 4);
    assert_eq!(game.start(), Ok(GameOverReason::OutOfBounds));
    let state = game.into_game_state();
    assert_eq!(state.tick, 2);
    assert_eq!(state.body[0], Point::new(4, 3));

    let mut game = Game::new(5, 5);
    game.add_user_direction("a".to_string(), Direction::West);
    assert_eq!(game.start(), Ok(GameOverReason::CollideWithSelf));
    assert_eq!(game.into_game_state().tick, 1);
}

#[test]
fn a_run_eats_what_lies_on_its_way() {
    let mut game = Game::new(9, 9);
    assert!(game.offer_food(Point::new(2, 1)));
    game.add_user_direction("a".to_string(), Direction::North);
    assert_eq!(game.start(), Ok(GameOverReason::OutOfBounds));
    let state = game.into_game_state();
    assert_eq!(state.tick, 5);
    // the new food may have lain on the way too
    assert!(state.body.len() >= 4);
    assert_eq!(state.body[0], Point::new(2, -1));
}

#[test]
fn errors_can_be_told_apart() {
    assert_ne!(GameError::InvalidUser, GameError::InvalidGame);
    assert_ne!(GameError::InvalidGame, GameError::Internal);
    assert_ne!(GameError::Internal, GameError::InvalidUser);
}
