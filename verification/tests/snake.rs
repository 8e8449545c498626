use snek::direction::Direction;
use snek::direction::Direction::{East, North};
use snek::snake::Snake;

#[test]
fn test_new_snake() {
    assert_eq!(Snake::new().length(), 1);
}

#[test]
fn test_grow_snake() {
    let mut snek = Snake::with_directions(&[North, North, North]);
    assert_eq!(snek.length(), 4);

    snek.grow(East);
    assert_eq!(snek.length(), 5);
    assert_eq!(snek.front(), Some(East));
}

#[test]
fn test_advance_snake() {
    let mut snek = Snake::with_directions(&[North, North, North]);
    assert_eq!(snek.length(), 4);

    snek.advance(East);
    assert_eq!(snek.length(), 4);
    assert_eq!(snek.front(), Some(East));
}

#[test]
fn test_iter_snake() {
    let directions = vec![North, East, North];
    let snek = Snake::with_directions(&directions);

    assert_eq!(directions, snek.iter());
}

#[test]
fn advance_keeps_length_and_grow_adds_one() {
    let mut snek = Snake::new();
    // Advancing a segmentless snake grows and immediately drops the segment.
    snek.advance(North);
    assert_eq!(snek.length(), 1);

    snek.grow(North);
    assert_eq!(snek.length(), 2);
    snek.grow(East);
    assert_eq!(snek.length(), 3);

    let before = snek.length();
    snek.advance(North);
    assert_eq!(snek.length(), before);
}

#[test]
fn advance_moves_the_chain() {
    let mut snek = Snake::with_directions(&[North, East]);
    // Front to back: East (grown last), North.
    assert_eq!(snek.iter(), vec![East, North]);
    snek.advance(North);
    // New front North, tail segment dropped.
    assert_eq!(snek.iter(), vec![North, East]);
}

#[test]
fn inverted_is_an_involution() {
    let all = [
        Direction::North,
        Direction::South,
        Direction::East,
        Direction::West,
    ];
    for d in all {
        assert_eq!(d.inverted().inverted(), d);
    }
    assert_eq!(Direction::North.inverted(), Direction::South);
    assert_eq!(Direction::East.inverted(), Direction::West);
}
