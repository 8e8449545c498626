use snek::direction::Direction;
use snek::driver::UserAction;
use snek::food::Food;
use snek::game::{Game, GameCoordinate, GameDimensions};

fn ten_by_ten() -> GameDimensions {
    GameDimensions {
        width: 10,
        height: 10,
    }
}

#[test]
fn test_new_game() {
    let width = 10;
    let height = 10;

    let game = Game::new(GameDimensions { width, height });

    assert_eq!(game.food().len(), 3);
    assert_eq!(game.dimensions(), GameDimensions { width, height });
}

#[test]
fn fresh_game_shape() {
    // A fresh game on a 10x10 board: length 7 (six grown segments plus the
    // head), head at the center (5, 5) facing north, exactly three food
    // items, one per kind, all in bounds.
    let game = Game::new(ten_by_ten());

    assert_eq!(game.snake_length(), 7);
    assert_eq!(game.head_direction(), Direction::North);

    let (head, body) = game.snake_bits();
    assert_eq!(head, GameCoordinate { x: 5, y: 5 });
    assert_eq!(body.len(), 6);

    let food = game.food();
    assert_eq!(food.len(), 3);
    assert_eq!(food[0].0, Food::Cake);
    assert_eq!(food[1].0, Food::Cherry);
    assert_eq!(food[2].0, Food::Mouse);
    for (_, at) in food {
        assert!(at.x < 10);
        assert!(at.y < 10);
    }
}

#[test]
fn body_positions_walk_back_from_head() {
    let game = Game::new(ten_by_ten());
    let (_, body) = game.snake_bits();

    // Front to back the chain reads East, East, East, North, North, North:
    // three cells west of the head, then three cells below the last of them.
    let expected = vec![
        (Direction::East, GameCoordinate { x: 4, y: 5 }),
        (Direction::East, GameCoordinate { x: 3, y: 5 }),
        (Direction::East, GameCoordinate { x: 2, y: 5 }),
        (Direction::North, GameCoordinate { x: 2, y: 6 }),
        (Direction::North, GameCoordinate { x: 2, y: 7 }),
        (Direction::North, GameCoordinate { x: 2, y: 8 }),
    ];
    assert_eq!(body, expected);
}

#[test]
fn idle_continues_straight() {
    let mut game = Game::new(ten_by_ten());
    game.update_for_user_action(UserAction::Idle);

    let (head, _) = game.snake_bits();
    assert_eq!(head, GameCoordinate { x: 5, y: 4 });
    assert_eq!(game.head_direction(), Direction::North);
}

#[test]
fn reversal_degrades_to_straight_all_directions() {
    // For every facing, asking for the exact reversal must end exactly where
    // pressing nothing would have: the head continues straight.
    let setups: Vec<Vec<UserAction>> = vec![
        // Facing North (fresh game).
        vec![],
        // Facing East.
        vec![UserAction::Move(Direction::East)],
        // Facing South.
        vec![
            UserAction::Move(Direction::East),
            UserAction::Move(Direction::South),
        ],
        // Facing West.
        vec![UserAction::Move(Direction::West)],
    ];

    for setup in setups {
        let mut reversed = Game::new(ten_by_ten());
        let mut idled = Game::new(ten_by_ten());
        for action in &setup {
            reversed.update_for_user_action(*action);
            idled.update_for_user_action(*action);
        }
        let facing = reversed.head_direction();
        assert_eq!(idled.head_direction(), facing);

        reversed.update_for_user_action(UserAction::Move(facing.inverted()));
        idled.update_for_user_action(UserAction::Idle);

        assert_eq!(reversed.head_direction(), facing);
        assert_eq!(reversed.head_direction(), idled.head_direction());
        assert_eq!(reversed.snake_bits().0, idled.snake_bits().0);
        assert_eq!(reversed.snake_bits().1, idled.snake_bits().1);
    }
}

#[test]
fn moves_update_head_in_all_directions() {
    // With (0, 0) at the top-left, North decrements y, South increments y,
    // East increments x and West decrements x.
    let mut game = Game::new(ten_by_ten());
    game.update_for_user_action(UserAction::Move(Direction::East));
    assert_eq!(game.snake_bits().0, GameCoordinate { x: 6, y: 5 });
    game.update_for_user_action(UserAction::Move(Direction::South));
    assert_eq!(game.snake_bits().0, GameCoordinate { x: 6, y: 6 });
    game.update_for_user_action(UserAction::Move(Direction::West));
    assert_eq!(game.snake_bits().0, GameCoordinate { x: 5, y: 6 });
    game.update_for_user_action(UserAction::Move(Direction::North));
    assert_eq!(game.snake_bits().0, GameCoordinate { x: 5, y: 5 });
}

#[test]
fn food_count_is_invariant_over_ticks() {
    let mut game = Game::new(ten_by_ten());
    let placed = game.food();
    assert_eq!(game.count_food(), 3);

    for _ in 0..4 {
        game.update_for_user_action(UserAction::Idle);
        assert_eq!(game.count_food(), 3);
        // The items themselves never move either.
        assert_eq!(game.food(), placed);
    }
    assert_eq!(game.snake_length(), 7);
}

#[test]
fn quit_and_pause_do_not_touch_the_game() {
    let mut game = Game::new(ten_by_ten());
    let before_head = game.snake_bits().0;
    game.update_for_user_action(UserAction::Quit);
    game.update_for_user_action(UserAction::PauseResume);
    assert_eq!(game.snake_bits().0, before_head);
    assert_eq!(game.snake_length(), 7);
    assert_eq!(game.head_direction(), Direction::North);
}

#[test]
fn dimension_helpers() {
    let dims = ten_by_ten();
    let center = dims.center();
    assert_eq!((center.x, center.y), (5, 5));

    assert!(dims.fits_in(&GameDimensions {
        width: 10,
        height: 12
    }));
    assert!(!dims.fits_in(&GameDimensions {
        width: 9,
        height: 12
    }));

    let adjusted = GameDimensions::border_adjusted(12, 12);
    assert_eq!(adjusted, ten_by_ten());
}

#[test]
fn action_allowed_guards_the_board_edge() {
    // On a minimal-height board the head starts at y = 0 and may not move
    // further north, which would leave the coordinate type.
    let game = Game::new(GameDimensions {
        width: 10,
        height: 1,
    });
    assert_eq!(game.snake_bits().0, GameCoordinate { x: 5, y: 0 });
    assert!(!game.action_allowed(UserAction::Idle));
    assert!(!game.action_allowed(UserAction::Move(Direction::North)));
    assert!(game.action_allowed(UserAction::Move(Direction::East)));
    assert!(game.action_allowed(UserAction::Quit));
    assert!(game.action_allowed(UserAction::PauseResume));
}

#[test]
fn food_repr_chars() {
    assert_eq!(Food::Cake.repr(), 'c');
    assert_eq!(Food::Cherry.repr(), 'y');
    assert_eq!(Food::Mouse.repr(), 'm');
}
