//! Sizes used for bounds and loop extents.
use vstd::prelude::*;

verus! {

pub const ZERO: usize = 0;

pub const THREE: usize = 3;

pub const FOUR: usize = 4;

/// Entries of a 3-by-3 matrix.
pub const NINE: usize = 9;

/// Entries of a 4-by-4 matrix.
pub const SIXTEEN: usize = 16;

} // verus!
