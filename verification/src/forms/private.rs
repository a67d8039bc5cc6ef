//! The sealing trait that keeps the set of submittable forms closed.
use vstd::prelude::*;

verus! {

/// Implemented only by the form types of this crate.
pub trait Sealed {}

} // verus!
