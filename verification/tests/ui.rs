use snek::game::{Game, GameDimensions};
use snek::ui::UI;

fn fresh_game() -> Game {
    Game::new(GameDimensions {
        width: 10,
        height: 10,
    })
}

#[test]
fn test_from() {
    assert_eq!(UI::from(&fresh_game()), UI::new(&fresh_game()));
}

#[test]
fn test_renderable() {
    assert_eq!(
        UI::new(&fresh_game()).as_string(),
        "Food count: 3, snake length: 7"
    );
}

#[test]
fn multi_digit_counts_render() {
    let ui = UI {
        food_count: 10,
        snake_length: 907,
    };
    assert_eq!(ui.as_string(), "Food count: 10, snake length: 907");

    let ui = UI {
        food_count: 0,
        snake_length: 1,
    };
    assert_eq!(ui.as_string(), "Food count: 0, snake length: 1");
}
