//! Loading map descriptions.

use vstd::prelude::*;

verus! {

/// A marker type indicating that an operation has failed.
///
/// This type is used as the error type of a result in cases where the
/// actual error has been added to an error collection.
#[derive(Clone, Copy, Debug, PartialEq, Eq, Structural)]
pub struct Failed;

} // verus!
