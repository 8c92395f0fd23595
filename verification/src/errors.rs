//! Error kinds produced by container operations.

use vstd::prelude::*;

verus! {

/// Returned by a failed append: the container already holds as many elements
/// as its capacity allows. The kind carries no payload and is compared by
/// equality with its canonical instance.
#[derive(Debug, PartialEq, Eq, Structural)]
pub struct RunOutOfCapacity {}

} // verus!
