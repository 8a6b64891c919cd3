//! A capability for turning one value into another.

use vstd::prelude::*;

verus! {

/// A value that can produce a `T`, and that can be folded into an existing `T`.
pub trait Mapper<T> {
    /// Produces the `T` that `self` stands for.
    fn map(&self) -> T;

    /// Folds `self` into `destination` and returns the result.
    ///
    /// Unless an implementation overrides it, nothing is folded in: the
    /// destination comes back as it was given.
    fn map_to(&self, destination: T) -> (merged: T)
        default_ensures
            merged == destination,
    {
        destination
    }
}

} // verus!
