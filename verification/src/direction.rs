//! Compass directions and their inversion.

use vstd::prelude::*;

verus! {

/// One of the four compass directions the snake can face or move in.
#[derive(Debug, Copy, Clone, PartialEq, Eq, Structural)]
pub enum Direction {
    North,
    South,
    East,
    West,
}

impl Direction {
    /// The direction opposite to `self`.
    pub open spec fn spec_inverted(self) -> Direction {
        match self {
            Direction::North => Direction::South,
            Direction::South => Direction::North,
            Direction::East => Direction::West,
            Direction::West => Direction::East,
        }
    }

    /// Returns the opposite direction: north and south swap, east and west swap.
    #[verifier::when_used_as_spec(spec_inverted)]
    pub fn inverted(self) -> (r: Self)
        ensures
            r == self.spec_inverted(),
    {
        match self {
            Self::North => Self::South,
            Self::South => Self::North,
            Self::East => Self::West,
            Self::West => Self::East,
        }
    }

    /// The character a body segment pointing this way is drawn as.
    pub fn repr(&self) -> (r: char)
        ensures
            r == (match self {
                Direction::North => '^',
                Direction::South => 'v',
                Direction::East => '>',
                Direction::West => '<',
            }),
    {
        match self {
            Direction::North => '^',
            Direction::South => 'v',
            Direction::East => '>',
            Direction::West => '<',
        }
    }
}

/// Inverting a direction twice gives back the original direction.
pub proof fn lemma_inverted_involution(d: Direction)
    ensures
        d.spec_inverted().spec_inverted() == d,
{
}

} // verus!
