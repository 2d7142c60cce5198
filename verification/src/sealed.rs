//! Keeps the set of supported hash markers closed.

use vstd::prelude::*;

verus! {

/// Only the hash markers of this crate implement this trait, so no other type
/// can stand in for a supported hash.
pub trait Sealed {
}

} // verus!
