//! Food items: inert kind tags placed on the board.

use vstd::prelude::*;

verus! {

/// One of the three fixed kinds of food. A game holds exactly one item of
/// each kind for its whole lifetime.
#[derive(Debug, Copy, Clone, PartialEq, Eq, Structural)]
pub enum Food {
    Mouse,
    Cherry,
    Cake,
}

impl Food {
    /// The character a food kind is drawn as.
    pub fn repr(&self) -> (r: char)
        ensures
            r == (match self {
                Food::Cake => 'c',
                Food::Cherry => 'y',
                Food::Mouse => 'm',
            }),
    {
        match self {
            Food::Cake => 'c',
            Food::Cherry => 'y',
            Food::Mouse => 'm',
        }
    }
}

} // verus!
