//! The game state machine: board, snake head, body and food.
//!
//! A game is modelled by [`GameModel`]: the board dimensions, the head's
//! absolute position and facing, the body's direction chain and the food
//! list. The single transition [`GameModel::step`] advances the snake one
//! cell per tick, silently turning a request to reverse into "continue
//! straight". Body coordinates are never stored: they are derived on demand
//! by walking the chain away from the head ([`body_positions_from`]).

use vstd::prelude::*;

use crate::direction::Direction;
use crate::driver::UserAction;
use crate::food::Food;
use crate::snake::Snake;

verus! {

/// Width and height of the playable board, fixed for a game's lifetime.
#[derive(Debug, Clone, Copy, Eq, PartialEq, Structural)]
pub struct GameDimensions {
    pub width: u16,
    pub height: u16,
}

/// A board cell; `(0, 0)` is the top-left corner.
#[derive(Debug, Copy, Clone, Eq, PartialEq, Structural)]
pub struct GameCoordinate {
    pub x: u16,
    pub y: u16,
}

/// The snake's leading end: the only part with a stored absolute position.
#[derive(Debug, Copy, Clone, Eq, PartialEq, Structural)]
pub struct SnakeHead {
    pub location: GameCoordinate,
    pub direction: Direction,
}

/// Where a head at `(x, y)` ends up after one move in `d`. North decrements
/// `y` and South increments it, since `(0, 0)` is the top-left corner.
pub open spec fn step_pos(x: int, y: int, d: Direction) -> (int, int) {
    match d {
        Direction::North => (x, y - 1),
        Direction::South => (x, y + 1),
        Direction::East => (x + 1, y),
        Direction::West => (x - 1, y),
    }
}

/// Where a body segment lies, given the position in front of it and the
/// direction stored for it: one cell opposite to that direction.
pub open spec fn back_pos(x: int, y: int, d: Direction) -> (int, int) {
    step_pos(x, y, d.spec_inverted())
}

/// Whether a derived position fits in the board's coordinate type.
pub open spec fn in_coord_range(p: (int, int)) -> bool {
    &&& 0 <= p.0 <= u16::MAX
    &&& 0 <= p.1 <= u16::MAX
}

/// The absolute positions of the body segments, front to back, derived by
/// walking the direction chain away from `(x, y)`.
pub open spec fn body_positions_from(x: int, y: int, segs: Seq<Direction>) -> Seq<(int, int)>
    decreases segs.len(),
{
    if segs.len() == 0 {
        Seq::empty()
    } else {
        let p = back_pos(x, y, segs[0]);
        seq![p] + body_positions_from(p.0, p.1, segs.drop_first())
    }
}

/// The mathematical state of a game.
#[verifier::ext_equal]
pub ghost struct GameModel {
    pub dims: GameDimensions,
    pub head_x: int,
    pub head_y: int,
    pub facing: Direction,
    pub segments: Seq<Direction>,
    pub food: Seq<(Food, GameCoordinate)>,
}

impl GameModel {
    /// The derived absolute positions of the body, front to back.
    pub open spec fn body_positions(self) -> Seq<(int, int)> {
        body_positions_from(self.head_x, self.head_y, self.segments)
    }

    /// Well-formedness: exactly three food items, a non-empty body, and a
    /// head and derived body that fit in the coordinate type.
    pub open spec fn wf(self) -> bool {
        &&& self.food.len() == 3
        &&& 1 <= self.segments.len() < usize::MAX
        &&& in_coord_range((self.head_x, self.head_y))
        &&& forall|i: int|
            0 <= i < self.body_positions().len() ==> in_coord_range(
                #[trigger] self.body_positions()[i],
            )
    }

    /// Whether a move in `d` keeps the head inside the coordinate type.
    pub open spec fn can_advance(self, d: Direction) -> bool {
        in_coord_range(step_pos(self.head_x, self.head_y, d))
    }

    /// The direction the snake actually moves in for an action: a request to
    /// reverse is replaced by the current facing, as is no request at all.
    pub open spec fn effective_direction(self, a: UserAction) -> Direction {
        match a {
            UserAction::Move(d) => {
                if d == self.facing.spec_inverted() {
                    self.facing
                } else {
                    d
                }
            },
            _ => self.facing,
        }
    }

    /// The state after the snake moves one cell in `d`: the head steps, the
    /// facing becomes `d`, a new segment appears at the front and the oldest
    /// tail segment is dropped. Food and dimensions never change.
    pub open spec fn advanced(self, d: Direction) -> GameModel {
        GameModel {
            head_x: step_pos(self.head_x, self.head_y, d).0,
            head_y: step_pos(self.head_x, self.head_y, d).1,
            facing: d,
            segments: (seq![d] + self.segments).drop_last(),
            ..self
        }
    }

    /// The single state transition, applied once per tick. `Quit` and
    /// `PauseResume` never reach the game's state; everything else advances
    /// the snake in the effective direction.
    pub open spec fn step(self, a: UserAction) -> GameModel {
        match a {
            UserAction::Quit | UserAction::PauseResume => self,
            _ => self.advanced(self.effective_direction(a)),
        }
    }

    /// Whether an action's movement, if any, stays inside the coordinate type.
    pub open spec fn action_allowed(self, a: UserAction) -> bool {
        match a {
            UserAction::Quit | UserAction::PauseResume => true,
            _ => self.can_advance(self.effective_direction(a)),
        }
    }
}

/// The derived body has exactly one position per segment.
pub proof fn lemma_positions_len(x: int, y: int, segs: Seq<Direction>)
    ensures
        body_positions_from(x, y, segs).len() == segs.len(),
    decreases segs.len(),
{
    if segs.len() > 0 {
        let p = back_pos(x, y, segs[0]);
        lemma_positions_len(p.0, p.1, segs.drop_first());
    }
}

/// Each derived position is one backward step from the position in front of
/// it (the walk's start for the first segment).
pub proof fn lemma_positions_step(x: int, y: int, segs: Seq<Direction>, i: int)
    requires
        0 < i < segs.len(),
    ensures
        body_positions_from(x, y, segs)[i] == back_pos(
            body_positions_from(x, y, segs)[i - 1].0,
            body_positions_from(x, y, segs)[i - 1].1,
            segs[i],
        ),
    decreases i,
{
    lemma_positions_len(x, y, segs);
    let p = back_pos(x, y, segs[0]);
    let rest = segs.drop_first();
    lemma_positions_len(p.0, p.1, rest);
    if i == 1 {
        assert(body_positions_from(x, y, segs)[1] == body_positions_from(p.0, p.1, rest)[0]);
    } else {
        lemma_positions_step(p.0, p.1, rest, i - 1);
    }
}

/// Dropping the last segment drops exactly the last derived position.
pub proof fn lemma_positions_drop_last(x: int, y: int, segs: Seq<Direction>)
    requires
        segs.len() >= 1,
    ensures
        body_positions_from(x, y, segs.drop_last()) == body_positions_from(x, y, segs).drop_last(),
    decreases segs.len(),
{
    lemma_positions_len(x, y, segs);
    let p = back_pos(x, y, segs[0]);
    if segs.len() == 1 {
        assert(segs.drop_last() =~= Seq::<Direction>::empty());
        assert(segs.drop_first() =~= Seq::<Direction>::empty());
        assert(body_positions_from(x, y, segs) =~= seq![p]);
        assert(body_positions_from(x, y, segs.drop_last()) =~= body_positions_from(
            x,
            y,
            segs,
        ).drop_last());
    } else {
        let rest = segs.drop_first();
        lemma_positions_len(p.0, p.1, rest);
        assert(segs.drop_last()[0] == segs[0]);
        assert(segs.drop_last().drop_first() =~= rest.drop_last());
        lemma_positions_drop_last(p.0, p.1, rest);
        assert(body_positions_from(x, y, segs.drop_last()) =~= body_positions_from(
            x,
            y,
            segs,
        ).drop_last());
    }
}

/// Stepping somewhere and walking back along the same direction returns to
/// the starting position.
pub proof fn lemma_back_of_step(x: int, y: int, d: Direction)
    ensures
        back_pos(step_pos(x, y, d).0, step_pos(x, y, d).1, d) == (x, y),
{
}

/// Advancing preserves well-formedness: the new first body position is the
/// old head, and the rest are the old body minus its tail.
pub proof fn lemma_advanced_preserves_wf(m: GameModel, d: Direction)
    requires
        m.wf(),
        m.can_advance(d),
    ensures
        m.advanced(d).wf(),
        m.advanced(d).segments.len() == m.segments.len(),
{
    let a = m.advanced(d);
    let hx = m.head_x;
    let hy = m.head_y;
    let ns = a.segments;
    assert(ns =~= seq![d] + m.segments.drop_last());
    assert(ns[0] == d);
    assert(ns.drop_first() =~= m.segments.drop_last());
    lemma_back_of_step(hx, hy, d);
    lemma_positions_drop_last(hx, hy, m.segments);
    lemma_positions_len(hx, hy, m.segments);
    lemma_positions_len(hx, hy, m.segments.drop_last());
    assert(back_pos(a.head_x, a.head_y, d) == (hx, hy));
    assert(a.body_positions() == seq![(hx, hy)] + body_positions_from(
        hx,
        hy,
        m.segments.drop_last(),
    ));
    assert forall|i: int| 0 <= i < a.body_positions().len() implies in_coord_range(
        #[trigger] a.body_positions()[i],
    ) by {
        if i > 0 {
            assert(a.body_positions()[i] == m.body_positions()[i - 1]);
            assert(in_coord_range(m.body_positions()[i - 1]));
        }
    }
}

/// A step never adds, removes or moves food: the three items placed at
/// construction survive every action for the lifetime of the game.
pub proof fn lemma_step_preserves_food(m: GameModel, a: UserAction)
    ensures
        m.step(a).food == m.food,
        m.wf() ==> m.step(a).food.len() == 3,
{
}

/// Requesting the exact reversal of the current facing produces the same
/// state as requesting nothing: both continue straight.
pub proof fn lemma_reversal_continues_straight(m: GameModel)
    ensures
        m.step(UserAction::Move(m.facing.spec_inverted())) == m.step(UserAction::Idle),
{
}

/// A step by an allowed action preserves well-formedness and the body length.
pub proof fn lemma_step_preserves_wf(m: GameModel, a: UserAction)
    requires
        m.wf(),
        m.action_allowed(a),
    ensures
        m.step(a).wf(),
        m.step(a).segments.len() == m.segments.len(),
{
    match a {
        UserAction::Quit | UserAction::PauseResume => {},
        _ => {
            lemma_advanced_preserves_wf(m, m.effective_direction(a));
        },
    }
}

impl GameDimensions {
    /// The board's central cell, where the head starts.
    pub fn center(&self) -> (r: GameCoordinate)
        ensures
            r.x == self.width / 2,
            r.y == self.height / 2,
    {
        GameCoordinate { x: self.width / 2, y: self.height / 2 }
    }

    /// Whether a board of this size fits inside one of size `rhs`.
    pub fn fits_in(&self, rhs: &Self) -> (r: bool)
        ensures
            r == (self.width <= rhs.width && self.height <= rhs.height),
    {
        self.width <= rhs.width && self.height <= rhs.height
    }

    /// The playable board inside a render surface of the given size, after
    /// removing one border cell on every side.
    pub fn border_adjusted(surface_width: u16, surface_height: u16) -> (r: GameDimensions)
        requires
            surface_width >= 2,
            surface_height >= 2,
        ensures
            r.width == surface_width - 2,
            r.height == surface_height - 2,
    {
        GameDimensions { width: surface_width - 2, height: surface_height - 2 }
    }
}

impl SnakeHead {
    /// Turns the head to `direction` and steps it one cell that way.
    pub fn update_for_move_in_direction(&mut self, direction: Direction)
        requires
            in_coord_range(
                step_pos(old(self).location.x as int, old(self).location.y as int, direction),
            ),
        ensures
            final(self).direction == direction,
            final(self).location.x as int == step_pos(
                old(self).location.x as int,
                old(self).location.y as int,
                direction,
            ).0,
            final(self).location.y as int == step_pos(
                old(self).location.x as int,
                old(self).location.y as int,
                direction,
            ).1,
    {
        self.direction = direction;
        match direction {
            Direction::North => self.location.y = self.location.y - 1,
            Direction::South => self.location.y = self.location.y + 1,
            Direction::East => self.location.x = self.location.x + 1,
            Direction::West => self.location.x = self.location.x - 1,
        }
    }
}

/// Relies on `rand::random_range` over `0..n`: the result is uniform in the
/// half-open range; the call panics only on an empty range, which the
/// precondition rules out.
#[verifier::external_body]
fn random_coordinate(dimensions: GameDimensions) -> (r: GameCoordinate)
    requires
        dimensions.width > 0,
        dimensions.height > 0,
    ensures
        r.x < dimensions.width,
        r.y < dimensions.height,
{
    GameCoordinate {
        x: rand::random_range(0..dimensions.width),
        y: rand::random_range(0..dimensions.height),
    }
}

/// The direction chain a fresh snake is seeded with: three cells east of the
/// head, then three cells below those (grown as three norths, three easts).
pub open spec fn initial_segments() -> Seq<Direction> {
    seq![
        Direction::East,
        Direction::East,
        Direction::East,
        Direction::North,
        Direction::North,
        Direction::North,
    ]
}

/// The whole game state: dimensions, snake, head and food. The only mutation
/// after construction is [`Game::update_for_user_action`].
#[derive(Debug, Clone)]
pub struct Game {
    dimensions: GameDimensions,
    snek: Snake,
    snek_head: SnakeHead,
    food: Vec<(Food, GameCoordinate)>,
}

impl View for Game {
    type V = GameModel;

    closed spec fn view(&self) -> GameModel {
        GameModel {
            dims: self.dimensions,
            head_x: self.snek_head.location.x as int,
            head_y: self.snek_head.location.y as int,
            facing: self.snek_head.direction,
            segments: self.snek@,
            food: self.food@,
        }
    }
}

impl Game {
    /// A fresh game: one food item of each kind at an independently random
    /// position in bounds, a snake of six seeded segments, and the head at
    /// the board's center facing north. The width bound keeps the seeded
    /// body, which reaches three cells west of the center, on the board's
    /// coordinate type.
    pub fn new(dimensions: GameDimensions) -> (r: Game)
        requires
            dimensions.width >= 6,
            dimensions.height >= 1,
        ensures
            r@.wf(),
            r@.dims == dimensions,
            r@.head_x == dimensions.width as int / 2,
            r@.head_y == dimensions.height as int / 2,
            r@.facing == Direction::North,
            r@.segments == initial_segments(),
            r@.food.len() == 3,
            r@.food[0].0 == Food::Cake,
            r@.food[1].0 == Food::Cherry,
            r@.food[2].0 == Food::Mouse,
            forall|i: int|
                0 <= i < 3 ==> (#[trigger] r@.food[i]).1.x < dimensions.width
                    && r@.food[i].1.y < dimensions.height,
    {
        let mut food: Vec<(Food, GameCoordinate)> = Vec::new();
        food.push((Food::Cake, random_coordinate(dimensions)));
        food.push((Food::Cherry, random_coordinate(dimensions)));
        food.push((Food::Mouse, random_coordinate(dimensions)));

        let mut snake = Snake::new();
        snake.grow(Direction::North);
        snake.grow(Direction::North);
        snake.grow(Direction::North);
        snake.grow(Direction::East);
        snake.grow(Direction::East);
        snake.grow(Direction::East);

        let r = Game {
            dimensions,
            snek: snake,
            snek_head: SnakeHead { location: dimensions.center(), direction: Direction::North },
            food,
        };
        proof {
            assert(r@.segments =~= initial_segments());
            let cx = dimensions.width as int / 2;
            let cy = dimensions.height as int / 2;
            reveal_with_fuel(body_positions_from, 8);
            assert(r@.body_positions() =~= seq![
                (cx - 1, cy),
                (cx - 2, cy),
                (cx - 3, cy),
                (cx - 3, cy + 1),
                (cx - 3, cy + 2),
                (cx - 3, cy + 3),
            ]);
        }
        r
    }

    /// The board's dimensions, fixed at construction.
    pub fn dimensions(&self) -> (r: GameDimensions)
        ensures
            r == self@.dims,
    {
        self.dimensions
    }

    /// The food items with their positions, in construction order.
    pub fn food(&self) -> (r: Vec<(Food, GameCoordinate)>)
        ensures
            r@ == self@.food,
    {
        let mut out: Vec<(Food, GameCoordinate)> = Vec::new();
        let n = self.food.len();
        let mut i: usize = 0;
        while i < n
            invariant
                n == self@.food.len(),
                i <= n,
                out@ =~= self@.food.subrange(0, i as int),
            decreases n - i,
        {
            out.push(self.food[i]);
            i = i + 1;
        }
        proof {
            assert(out@ =~= self@.food);
        }
        out
    }

    /// How many food items the board holds.
    pub fn count_food(&self) -> (r: usize)
        ensures
            r == self@.food.len(),
    {
        self.food.len()
    }

    /// The snake's length: its segments plus the implicit head.
    pub fn snake_length(&self) -> (r: usize)
        requires
            self@.segments.len() < usize::MAX,
        ensures
            r == self@.segments.len() + 1,
    {
        self.snek.length()
    }

    /// The direction the head currently faces.
    pub fn head_direction(&self) -> (r: Direction)
        ensures
            r == self@.facing,
    {
        self.snek_head.direction
    }

    /// The head's position together with each body segment's direction and
    /// derived absolute position, front to back.
    pub fn snake_bits(&self) -> (r: (GameCoordinate, Vec<(Direction, GameCoordinate)>))
        requires
            self@.wf(),
        ensures
            r.0.x as int == self@.head_x,
            r.0.y as int == self@.head_y,
            r.1@.len() == self@.segments.len(),
            forall|i: int|
                0 <= i < r.1@.len() ==> {
                    &&& (#[trigger] r.1@[i]).0 == self@.segments[i]
                    &&& r.1@[i].1.x as int == self@.body_positions()[i].0
                    &&& r.1@[i].1.y as int == self@.body_positions()[i].1
                },
    {
        let dirs = self.snek.iter();
        let mut out: Vec<(Direction, GameCoordinate)> = Vec::new();
        let mut curr = self.snek_head.location;
        proof {
            lemma_positions_len(self@.head_x, self@.head_y, self@.segments);
        }
        let n = dirs.len();
        let mut i: usize = 0;
        while i < n
            invariant
                self@.wf(),
                dirs@ == self@.segments,
                n == self@.segments.len(),
                self@.body_positions().len() == n,
                i <= n,
                out@.len() == i,
                forall|j: int|
                    0 <= j < i ==> {
                        &&& (#[trigger] out@[j]).0 == self@.segments[j]
                        &&& out@[j].1.x as int == self@.body_positions()[j].0
                        &&& out@[j].1.y as int == self@.body_positions()[j].1
                    },
                i == 0 ==> curr == self.snek_head.location,
                i > 0 ==> curr.x as int == self@.body_positions()[i - 1].0 && curr.y as int
                    == self@.body_positions()[i - 1].1,
            decreases n - i,
        {
            let d = dirs[i];
            proof {
                if i > 0 {
                    lemma_positions_step(self@.head_x, self@.head_y, self@.segments, i as int);
                }
                assert(self@.body_positions()[i as int] == back_pos(
                    curr.x as int,
                    curr.y as int,
                    d,
                ));
                assert(in_coord_range(self@.body_positions()[i as int]));
            }
            match d {
                Direction::North => curr.y = curr.y + 1,
                Direction::South => curr.y = curr.y - 1,
                Direction::East => curr.x = curr.x - 1,
                Direction::West => curr.x = curr.x + 1,
            }
            out.push((d, curr));
            i = i + 1;
        }
        (self.snek_head.location, out)
    }

    /// Whether `action`'s movement, if any, keeps the head's coordinates in
    /// range, so that [`Game::update_for_user_action`] may be called.
    pub fn action_allowed(&self, action: UserAction) -> (r: bool)
        ensures
            r == self@.action_allowed(action),
    {
        let moves = match action {
            UserAction::Quit | UserAction::PauseResume => false,
            _ => true,
        };
        if !moves {
            return true;
        }
        let d = match action {
            UserAction::Move(move_direction) => {
                if move_direction == self.snek_head.direction.inverted() {
                    self.snek_head.direction
                } else {
                    move_direction
                }
            },
            _ => self.snek_head.direction,
        };
        let loc = self.snek_head.location;
        match d {
            Direction::North => loc.y >= 1,
            Direction::South => loc.y < 65535,
            Direction::East => loc.x < 65535,
            Direction::West => loc.x >= 1,
        }
    }

    /// The sole mutator: applies one user action for this tick. A reversal
    /// request degrades to continuing straight; `Quit` and `PauseResume`
    /// leave the game untouched.
    pub fn update_for_user_action(&mut self, user_action: UserAction)
        requires
            old(self)@.wf(),
            old(self)@.action_allowed(user_action),
        ensures
            final(self)@ == old(self)@.step(user_action),
            final(self)@.wf(),
            final(self)@.food == old(self)@.food,
            final(self)@.dims == old(self)@.dims,
    {
        proof {
            lemma_step_preserves_wf(old(self)@, user_action);
            lemma_step_preserves_food(old(self)@, user_action);
        }
        match user_action {
            UserAction::Idle => self.advance_snake(),
            UserAction::Move(move_direction) => {
                if move_direction == self.snek_head.direction.inverted() {
                    self.advance_snake();
                } else {
                    self.advance_snake_in_direction(move_direction);
                }
            },
            UserAction::Quit | UserAction::PauseResume => {},
        }
    }

    /// Continues one cell in the current facing.
    fn advance_snake(&mut self)
        requires
            old(self)@.can_advance(old(self)@.facing),
        ensures
            final(self)@ == old(self)@.advanced(old(self)@.facing),
    {
        let d = self.snek_head.direction;
        self.advance_snake_in_direction(d);
    }

    /// Moves one cell in `direction` and turns the head that way.
    fn advance_snake_in_direction(&mut self, direction: Direction)
        requires
            old(self)@.can_advance(direction),
        ensures
            final(self)@ == old(self)@.advanced(direction),
    {
        self.snek.advance(direction);
        self.snek_head.update_for_move_in_direction(direction);
        proof {
            assert(self@ =~= old(self)@.advanced(direction));
        }
    }
}

} // verus!
