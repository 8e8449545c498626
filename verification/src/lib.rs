//! Core logic of a terminal snake game.
//!
//! The snake's body is a chain of relative directions; the game state machine
//! advances it once per tick, rejecting instant reversals, and the driver
//! layer decides how ticks, keys and the pause flag interact.

pub mod args;
pub mod channel;
pub mod direction;
pub mod driver;
pub mod food;
pub mod game;
pub mod input;
pub mod snake;
pub mod ui;
