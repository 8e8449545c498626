//! The snake's body: a chain of relative directions.
//!
//! Each stored direction says how to get from a body segment to the segment
//! (or head) in front of it, so the body carries no absolute coordinates of
//! its own. The view of a snake is that chain, front (nearest the head)
//! first. The snake's length counts the implicit head, so it is always one
//! more than the number of segments.

use std::collections::VecDeque;
use vstd::prelude::*;

use crate::direction::Direction;

verus! {

/// An ordered chain of body segments, each recorded as the direction toward
/// its front neighbour.
#[derive(Debug, Clone)]
pub struct Snake {
    segments: VecDeque<Direction>,
}

impl View for Snake {
    type V = Seq<Direction>;

    closed spec fn view(&self) -> Seq<Direction> {
        self.segments@
    }
}

impl Snake {
    /// A snake with no body segments yet: just the implicit head.
    pub fn new() -> (r: Self)
        ensures
            r@ == Seq::<Direction>::empty(),
    {
        Snake { segments: VecDeque::new() }
    }

    /// The segment directions from newest (nearest the head) to oldest.
    pub fn iter(&self) -> (r: Vec<Direction>)
        ensures
            r@ == self@,
    {
        let mut out: Vec<Direction> = Vec::new();
        let n = self.segments.len();
        let mut i: usize = 0;
        while i < n
            invariant
                n == self@.len(),
                i <= n,
                out@ =~= self@.subrange(0, i as int),
            decreases n - i,
        {
            out.push(self.segments[i]);
            i = i + 1;
        }
        proof {
            assert(out@ =~= self@);
        }
        out
    }

    /// Moves the body one cell in `direction`: a new segment appears at the
    /// front and the oldest tail segment is dropped, so the length never
    /// changes.
    pub fn advance(&mut self, direction: Direction)
        ensures
            final(self)@ == (seq![direction] + old(self)@).drop_last(),
            final(self)@.len() == old(self)@.len(),
    {
        self.grow(direction);
        self.drop_tail();
    }

    /// Prepends `direction` as a new frontmost segment, lengthening the snake
    /// by one. This is the only operation that makes the snake longer.
    pub fn grow(&mut self, direction: Direction)
        ensures
            final(self)@ == seq![direction] + old(self)@,
            final(self)@.len() == old(self)@.len() + 1,
    {
        self.segments.push_front(direction);
    }

    /// Removes the oldest (tail) segment; a no-op on a segmentless snake.
    pub fn drop_tail(&mut self)
        ensures
            old(self)@.len() > 0 ==> final(self)@ == old(self)@.drop_last(),
            old(self)@.len() == 0 ==> final(self)@ == old(self)@,
    {
        let _ = self.segments.pop_back();
    }

    /// The snake's length: its segments plus the implicit head.
    pub fn length(&self) -> (r: usize)
        requires
            self@.len() < usize::MAX,
        ensures
            r == self@.len() + 1,
    {
        self.segments.len() + 1
    }

    /// The frontmost segment direction, if the snake has any segments.
    pub fn front(&self) -> (r: Option<Direction>)
        ensures
            self@.len() == 0 ==> r is None,
            self@.len() > 0 ==> r == Some(self@[0]),
    {
        if self.segments.len() == 0 {
            None
        } else {
            Some(self.segments[0])
        }
    }

    /// A snake grown once per given direction, in order; the chain ends up
    /// reversed, since each growth prepends.
    pub fn with_directions(directions: &[Direction]) -> (r: Snake)
        ensures
            r@ == directions@.reverse(),
    {
        let mut snek = Snake::new();
        let n = directions.len();
        let mut i: usize = 0;
        while i < n
            invariant
                n == directions@.len(),
                i <= n,
                snek@ =~= directions@.subrange(0, i as int).reverse(),
            decreases n - i,
        {
            let d = directions[i];
            snek.grow(d);
            proof {
                assert(snek@ =~= directions@.subrange(0, i + 1 as int).reverse());
            }
            i = i + 1;
        }
        proof {
            assert(directions@.subrange(0, n as int) =~= directions@);
            assert(snek@ =~= directions@.reverse());
        }
        snek
    }
}

} // verus!
