//! Configuration of the map.

use vstd::prelude::*;

verus! {

/// A region of the map.
#[derive(Clone, Debug)]
pub struct Region {
    /// The directory where the paths live.
    pub paths: String,
    /// The directory where the rules live.
    pub rules: String,
    /// Include this region in the detailed map?
    pub detailed: bool,
}

} // verus!
