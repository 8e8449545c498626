//! Command-line input, reduced to the one tunable it carries.

use vstd::prelude::*;

use crate::driver::{Config, GameConfig};

verus! {

/// The parsed command line: an optional food-count override. The actual
/// argument parsing happens outside the library; this type carries its
/// result.
#[derive(Debug, Clone, Eq, PartialEq, Structural)]
pub struct Input {
    pub food_count: Option<usize>,
}

impl From<Input> for Config {
    /// A default configuration, with the food count overridden when given.
    fn from(input: Input) -> (r: Config) {
        let mut builder = Config::default();
        if let Some(food_count) = input.food_count {
            builder.game_config.food_count = food_count;
        }
        builder
    }
}

impl vstd::std_specs::convert::FromSpecImpl<Input> for Config {
    open spec fn obeys_from_spec() -> bool {
        true
    }

    open spec fn from_spec(input: Input) -> Config {
        Config {
            game_config: GameConfig {
                food_count: match input.food_count {
                    Some(food_count) => food_count,
                    None => 1,
                },
            },
        }
    }
}

} // verus!
