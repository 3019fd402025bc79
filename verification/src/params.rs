//! Common parameters.
//!
//! Follow these parameter conventions as close as possible, adding or
//! changing as needed.

use vstd::prelude::*;

verus! {

/// Set verbosity level (integer)
pub const VERBOSITY: &'static str = "verbosity";

} // verus!
