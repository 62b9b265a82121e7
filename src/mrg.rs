use crate::inch::{fits_i64, In};
use vstd::prelude::*;

verus! {

/// A margin with a _left_, _right_, _bottom_, _top_.
#[derive(Debug, Default, Clone, Copy, PartialEq, Eq, Structural, PartialOrd, Hash)]
pub struct Mrg {
    /// The _left_ margin.
    pub lft: In,
    /// The _right_ margin.
    pub rht: In,
    /// The _bottom_ margin.
    pub btm: In,
    /// The _top_ margin.
    pub top: In,
}

/// A margin with _1in_ for the left, right, bottom, and top.
pub fn mrg_in_1() -> (r: Mrg)
    ensures
        r.lft == In(1000),
        r.rht == In(1000),
        r.btm == In(1000),
        r.top == In(1000),
{
    Mrg { lft: In(1000), rht: In(1000), btm: In(1000), top: In(1000) }
}

impl Mrg {
    /// Returns a new [`Mrg`].
    pub fn new(lft: In, rht: In, btm: In, top: In) -> (r: Mrg)
        ensures
            r == (Mrg { lft, rht, btm, top }),
    {
        Mrg { lft, rht, btm, top }
    }

    /// The horizontal space that the margin takes: left plus right.
    pub fn width(&self) -> (r: In)
        requires
            fits_i64(self.lft.0 + self.rht.0),
        ensures
            r.0 == self.lft.0 + self.rht.0,
    {
        self.lft + self.rht
    }

    /// The vertical space that the margin takes: bottom plus top.
    pub fn height(&self) -> (r: In)
        requires
            fits_i64(self.btm.0 + self.top.0),
        ensures
            r.0 == self.btm.0 + self.top.0,
    {
        self.btm + self.top
    }
}

} // verus!
