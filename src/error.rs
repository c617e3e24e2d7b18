//! The one error of this library.

use vstd::prelude::*;

verus! {

/// An operation failed. No detail is given of why: which check failed is
/// itself information about the inputs.
#[derive(Clone, Copy, Debug, PartialEq, Eq, Structural)]
pub struct Unspecified;

} // verus!
