use crate::doc::LineSpace;
use crate::inch::{div_toward_zero, fits_i64};
use vstd::prelude::*;

verus! {

/// Where the next paragraph starts, in thousandths of a point: `y` moved down
/// by the paragraph's height and by its first line's height times the
/// spacing after it.
pub open spec fn advance_spec(y: int, first_line_h: int, spc_aft: LineSpace, blk_h: int) -> int {
    y + div_toward_zero(first_line_h * spc_aft.val_spec(), 1000) + blk_h
}

/// Returns the vertical position of the paragraph after one that starts at
/// `y`, whose first line is `first_line_h` high and whose block is `blk_h`
/// high, all in thousandths of a point.
pub fn advance(y: i64, first_line_h: i64, spc_aft: LineSpace, blk_h: i64) -> (r: i64)
    requires
        fits_i64(advance_spec(y as int, first_line_h as int, spc_aft, blk_h as int)),
    ensures
        r == advance_spec(y as int, first_line_h as int, spc_aft, blk_h as int),
{
    let gap: i128 = (first_line_h as i128) * (spc_aft.val() as i128) / 1000;
    ((y as i128) + gap + (blk_h as i128)) as i64
}

} // verus!
