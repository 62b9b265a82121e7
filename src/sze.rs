use crate::inch::In;
use crate::unit::Unit;
use vstd::prelude::*;

verus! {

/// A size with a _width_ and _height_.
#[derive(Debug, Default, Clone, Copy, PartialEq, Eq, Structural, PartialOrd, Hash)]
pub struct Sze {
    pub width: In,
    pub height: In,
}

/// An _8.5in x 11in_ letter size.
///
/// ANSI (American National Standards Institute) letter size,
/// also known as ANSI A, is a standard paper size in the United States.
pub fn ansi_letter() -> (r: Sze)
    ensures
        r.width == In(8500),
        r.height == In(11000),
{
    Sze { width: In(8500), height: In(11000) }
}

impl Sze {
    /// Returns a new [`Sze`].
    pub fn new(width: In, height: In) -> (r: Sze)
        ensures
            r.width == width,
            r.height == height,
    {
        Sze { width, height }
    }

    /// Returns the width and height in thousandths of a point.
    pub fn pt(&self) -> (r: (i128, i128))
        ensures
            r.0 == self.width.pt_spec(),
            r.1 == self.height.pt_spec(),
    {
        (self.width.pt(), self.height.pt())
    }
}

} // verus!
