//! Crops of the garden plot.

use vstd::prelude::*;

verus! {

/// A spring crop.
#[derive(Clone, Copy, Debug, PartialEq, Eq, Structural)]
pub struct Asparagus {}

} // verus!
