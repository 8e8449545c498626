//! The status line shown under the board: food count and snake length.

use vstd::prelude::*;
use vstd::string::StringExecFns;

use crate::game::Game;

verus! {

/// The character for a single decimal digit.
pub open spec fn digit_char(d: nat) -> char {
    if d == 0 {
        '0'
    } else if d == 1 {
        '1'
    } else if d == 2 {
        '2'
    } else if d == 3 {
        '3'
    } else if d == 4 {
        '4'
    } else if d == 5 {
        '5'
    } else if d == 6 {
        '6'
    } else if d == 7 {
        '7'
    } else if d == 8 {
        '8'
    } else {
        '9'
    }
}

/// The decimal digits of `n`, most significant first, with no leading zeros
/// (a lone zero for zero itself).
pub open spec fn dec_rep(n: nat) -> Seq<char>
    decreases n,
{
    if n < 10 {
        seq![digit_char(n)]
    } else {
        dec_rep(n / 10).push(digit_char(n % 10))
    }
}

/// The status line's text for a given food count and snake length.
pub open spec fn ui_text(food_count: nat, snake_length: nat) -> Seq<char> {
    "Food count: "@ + dec_rep(food_count) + ", snake length: "@ + dec_rep(snake_length)
}

/// Appends the character of one decimal digit.
fn append_digit(s: &mut String, d: usize)
    requires
        d < 10,
    ensures
        final(s)@ == old(s)@.push(digit_char(d as nat)),
{
    match d {
        0 => s.append("0"),
        1 => s.append("1"),
        2 => s.append("2"),
        3 => s.append("3"),
        4 => s.append("4"),
        5 => s.append("5"),
        6 => s.append("6"),
        7 => s.append("7"),
        8 => s.append("8"),
        _ => s.append("9"),
    }
    proof {
        reveal_strlit("0");
        reveal_strlit("1");
        reveal_strlit("2");
        reveal_strlit("3");
        reveal_strlit("4");
        reveal_strlit("5");
        reveal_strlit("6");
        reveal_strlit("7");
        reveal_strlit("8");
        reveal_strlit("9");
        assert(s@ =~= old(s)@.push(digit_char(d as nat)));
    }
}

/// Appends the decimal digits of `n`, most significant first.
fn push_decimal(s: &mut String, n: usize)
    ensures
        final(s)@ == old(s)@ + dec_rep(n as nat),
    decreases n,
{
    if n >= 10 {
        push_decimal(s, n / 10);
    }
    append_digit(s, n % 10);
    proof {
        assert(s@ =~= old(s)@ + dec_rep(n as nat));
    }
}

/// A snapshot of the numbers the status line shows.
#[derive(Debug, Clone, Eq, PartialEq, Structural)]
pub struct UI {
    pub food_count: usize,
    pub snake_length: usize,
}

impl UI {
    /// Reads the food count and snake length out of a game.
    pub fn new(game: &Game) -> (r: Self)
        requires
            game@.segments.len() < usize::MAX,
        ensures
            r.food_count == game@.food.len(),
            r.snake_length == game@.segments.len() + 1,
    {
        UI { food_count: game.count_food(), snake_length: game.snake_length() }
    }

    /// The status line's text for this snapshot.
    pub fn as_string(&self) -> (r: String)
        ensures
            r@ == ui_text(self.food_count as nat, self.snake_length as nat),
    {
        let mut s = String::new();
        s.append("Food count: ");
        push_decimal(&mut s, self.food_count);
        s.append(", snake length: ");
        push_decimal(&mut s, self.snake_length);
        proof {
            assert(s@ =~= ui_text(self.food_count as nat, self.snake_length as nat));
        }
        s
    }
}

impl UI {
    /// A snapshot of `game`, as [`UI::new`] takes it.
    pub fn from(game: &Game) -> (r: Self)
        requires
            game@.segments.len() < usize::MAX,
        ensures
            r.food_count == game@.food.len(),
            r.snake_length == game@.segments.len() + 1,
    {
        Self::new(game)
    }
}

} // verus!
