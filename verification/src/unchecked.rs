use vstd::prelude::*;

verus! {

/// Marker passed to the `*_unchecked` constructors: the caller vouches for the
/// parameters, so no validation is done.
#[derive(Debug, Clone, Copy, PartialEq, Eq)]
pub struct Unchecked;

} // verus!
