//! Places in a collection.

use vstd::prelude::*;

verus! {

/// A place in a collection, as a specification counts it.
pub open spec fn place(i: usize) -> int {
    i as int
}

} // verus!
