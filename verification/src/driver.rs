//! Per-tick decisions of the event loop: mapping keys to actions and
//! combining the pause flag with the game's single transition function.
//!
//! The loop itself (threads, channels, terminal) lives outside the library;
//! it feeds every tick's polled key into [`Driver::handle_tick`] and obeys
//! the returned verdict.

use vstd::prelude::*;

use crate::direction::Direction;
use crate::game::Game;

verus! {

/// What the user asked for this tick. `Idle` stands for "no key was pressed".
#[derive(Debug, Copy, Clone, PartialEq, Eq, Structural)]
pub enum UserAction {
    Move(Direction),
    Quit,
    PauseResume,
    Idle,
}

/// A keypress, reduced to the shapes the key table distinguishes.
#[derive(Debug, Copy, Clone, PartialEq, Eq, Structural)]
pub enum KeyInput {
    Char(char),
    Ctrl(char),
    Up,
    Down,
    Left,
    Right,
    Esc,
    Other,
}

/// The fixed key table: WASD or arrows move, space pauses, escape or
/// control-c quits, anything else does nothing.
pub open spec fn spec_action_for_key(key: KeyInput) -> UserAction {
    match key {
        KeyInput::Up => UserAction::Move(Direction::North),
        KeyInput::Down => UserAction::Move(Direction::South),
        KeyInput::Right => UserAction::Move(Direction::East),
        KeyInput::Left => UserAction::Move(Direction::West),
        KeyInput::Char(c) => {
            if c == 'w' {
                UserAction::Move(Direction::North)
            } else if c == 's' {
                UserAction::Move(Direction::South)
            } else if c == 'd' {
                UserAction::Move(Direction::East)
            } else if c == 'a' {
                UserAction::Move(Direction::West)
            } else if c == ' ' {
                UserAction::PauseResume
            } else {
                UserAction::Idle
            }
        },
        KeyInput::Ctrl(c) => {
            if c == 'c' {
                UserAction::Quit
            } else {
                UserAction::Idle
            }
        },
        KeyInput::Esc => UserAction::Quit,
        KeyInput::Other => UserAction::Idle,
    }
}

impl UserAction {
    /// Maps a keypress to its action by the fixed key table.
    pub fn from_key(key: KeyInput) -> (r: Self)
        ensures
            r == spec_action_for_key(key),
    {
        match key {
            KeyInput::Char('w') | KeyInput::Up => Self::Move(Direction::North),
            KeyInput::Char('s') | KeyInput::Down => Self::Move(Direction::South),
            KeyInput::Char('d') | KeyInput::Right => Self::Move(Direction::East),
            KeyInput::Char('a') | KeyInput::Left => Self::Move(Direction::West),
            KeyInput::Char(' ') => Self::PauseResume,
            KeyInput::Esc | KeyInput::Ctrl('c') => Self::Quit,
            _ => Self::Idle,
        }
    }
}

/// What the key channel yielded for this tick's non-blocking poll.
#[derive(Debug, Copy, Clone, PartialEq, Eq, Structural)]
pub enum KeyPoll {
    Key(KeyInput),
    NoKey,
    Disconnected,
}

/// The loop's verdict for one tick.
#[derive(Debug, Copy, Clone, PartialEq, Eq, Structural)]
pub enum TickResult {
    /// The tick was handled; render the game if the payload says so.
    Step(bool),
    /// The user asked to quit: end the session normally.
    Quit,
    /// The key channel's producer vanished: a fatal lifecycle error.
    Fatal,
}

/// Per-tick game configuration.
#[derive(Debug)]
pub struct GameConfig {
    pub food_count: usize,
}

/// Top-level configuration for a session.
#[derive(Debug)]
pub struct Config {
    pub game_config: GameConfig,
}

impl Default for GameConfig {
    /// One food item, before the per-kind placement fixes the count at three.
    fn default() -> (r: Self)
        ensures
            r.food_count == 1,
    {
        Self { food_count: 1 }
    }
}

impl Default for Config {
    fn default() -> (r: Self)
        ensures
            r.game_config.food_count == 1,
    {
        Self { game_config: GameConfig::default() }
    }
}

/// The game plus the pause flag the event loop keeps outside of it.
pub struct Driver {
    pub game: Game,
    pub paused: bool,
}

/// Whether an action advances the snake when the session is not paused.
pub open spec fn advances(a: UserAction) -> bool {
    match a {
        UserAction::Move(_) | UserAction::Idle => true,
        UserAction::Quit | UserAction::PauseResume => false,
    }
}

/// Everything [`Driver::respond_to_action`] promises of a pre-state, a
/// post-state, an action and the returned render flag.
pub open spec fn respond_post(pre: Driver, post: Driver, a: UserAction, render: bool) -> bool {
    &&& pre.paused ==> post.game == pre.game && post.paused == !(a is PauseResume) && !render
    &&& !pre.paused && a is PauseResume ==> post.game == pre.game && post.paused && !render
    &&& !pre.paused && advances(a) ==> post.game@ == pre.game@.step(a) && !post.paused && render
    &&& post.paused != pre.paused ==> a is PauseResume
    &&& post.game@.wf()
}

impl Driver {
    /// A session around a fresh game, not paused.
    pub fn new(game: Game) -> (r: Self)
        requires
            game@.wf(),
        ensures
            r.game == game,
            !r.paused,
    {
        Driver { game, paused: false }
    }

    /// Whether [`Driver::respond_to_action`] accepts `a` in this state.
    pub open spec fn action_allowed(self, a: UserAction) -> bool {
        &&& !(a is Quit)
        &&& !self.paused && advances(a) ==> self.game@.action_allowed(a)
    }

    /// Applies one tick's action around the pause flag. While paused, only
    /// `PauseResume` has an effect (it resumes); otherwise `PauseResume`
    /// pauses, and a move or no key advances the game once and asks for a
    /// render. `Quit` is filtered out before this point.
    pub fn respond_to_action(&mut self, action: UserAction) -> (render: bool)
        requires
            old(self).game@.wf(),
            old(self).action_allowed(action),
        ensures
            respond_post(*old(self), *final(self), action, render),
    {
        if self.paused {
            if let UserAction::PauseResume = action {
                self.paused = false;
            }
            false
        } else {
            match action {
                UserAction::PauseResume => {
                    self.paused = true;
                    false
                },
                UserAction::Idle | UserAction::Move(_) => {
                    self.game.update_for_user_action(action);
                    true
                },
                UserAction::Quit => false,
            }
        }
    }

    /// Whether [`Driver::handle_tick`] accepts this poll result: any action
    /// the poll maps to that would advance the snake must keep the head's
    /// coordinates in range.
    pub open spec fn poll_allowed(self, poll: KeyPoll) -> bool {
        match poll {
            KeyPoll::Key(k) => {
                let a = spec_action_for_key(k);
                !(a is Quit) ==> self.action_allowed(a)
            },
            KeyPoll::NoKey => self.action_allowed(UserAction::Idle),
            KeyPoll::Disconnected => true,
        }
    }

    /// Handles one tick of the main loop: maps the polled key (if any) to an
    /// action, ends the session on `Quit` or a dead channel, and otherwise
    /// responds to exactly one action — a tick never advances the game more
    /// than once.
    pub fn handle_tick(&mut self, poll: KeyPoll) -> (r: TickResult)
        requires
            old(self).game@.wf(),
            old(self).poll_allowed(poll),
        ensures
            poll is Disconnected ==> r is Fatal && *final(self) == *old(self),
            poll matches KeyPoll::Key(k) ==> (if spec_action_for_key(k) is Quit {
                r is Quit && *final(self) == *old(self)
            } else {
                r matches TickResult::Step(render) && respond_post(
                    *old(self),
                    *final(self),
                    spec_action_for_key(k),
                    render,
                )
            }),
            poll is NoKey ==> (r matches TickResult::Step(render) && respond_post(
                *old(self),
                *final(self),
                UserAction::Idle,
                render,
            )),
    {
        match poll {
            KeyPoll::Key(key) => {
                let action = UserAction::from_key(key);
                if let UserAction::Quit = action {
                    TickResult::Quit
                } else {
                    let render = self.respond_to_action(action);
                    TickResult::Step(render)
                }
            },
            KeyPoll::NoKey => {
                let render = self.respond_to_action(UserAction::Idle);
                TickResult::Step(render)
            },
            KeyPoll::Disconnected => TickResult::Fatal,
        }
    }
}

/// While the session is paused, neither a move nor an idle tick changes the
/// game at all — in particular the snake's length, head position and facing
/// stay put — and only `PauseResume` ever changes the paused flag.
pub proof fn lemma_pause_freezes_game(pre: Driver, post: Driver, a: UserAction, render: bool)
    requires
        respond_post(pre, post, a, render),
        pre.paused,
        advances(a),
    ensures
        post.game == pre.game,
        post.paused,
        post.game@.segments.len() == pre.game@.segments.len(),
        post.game@.head_x == pre.game@.head_x,
        post.game@.head_y == pre.game@.head_y,
        post.game@.facing == pre.game@.facing,
{
}

} // verus!
