//! An alternative command-line surface kept alongside [`crate::input`].

use vstd::prelude::*;

verus! {

/// The parsed command line: an optional food-count override.
#[derive(Debug, Clone, Eq, PartialEq, Structural)]
pub struct Args {
    pub food_count: Option<i32>,
}

} // verus!
