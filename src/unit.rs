use vstd::prelude::*;

verus! {

/// A unit of length that converts to points.
pub trait Unit: Sized {
    /// The length in thousandths of a point.
    spec fn pt_spec(&self) -> int;

    /// Returns the length in thousandths of a point.
    fn pt(&self) -> (r: i128)
        ensures
            r == self.pt_spec(),
    ;
}

} // verus!
