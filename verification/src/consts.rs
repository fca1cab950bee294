//! Fixed bounds of the training-set validation rules.

use vstd::prelude::*;

verus! {

/// Longest accepted training-set name, in characters.
pub const MAX_SET_NAME_LENGTH: usize = 100;

/// Smallest accepted training-set size.
pub const MIN_SET_SIZE: usize = 5;

/// Largest accepted training-set size.
pub const MAX_SET_SIZE: usize = 1000;

} // verus!
