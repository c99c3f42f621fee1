//! The trait that closes the set of value kinds.

use vstd::prelude::*;

verus! {

/// Implemented for the value kinds of this library and for nothing else.
pub trait Sealed {

}

} // verus!
