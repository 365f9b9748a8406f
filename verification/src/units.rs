//! The unit of length shared by layouts and drawing operations.

use vstd::prelude::*;

verus! {

/// Number of length units in one pixel.
///
/// Forty makes every quotient the layout and the grid take (by five, by two,
/// by eight) exact for a viewport that is a whole number of pixels.
pub const UNITS_PER_PIXEL: u32 = 40;

/// Width of the strip of border left visible on each side of the grid: two pixels.
pub const BORDER_INSET: u32 = 2 * UNITS_PER_PIXEL;

/// Converts a whole number of pixels to units, or `None` when the result does not fit.
pub fn pixels(count: u32) -> (units: Option<u32>)
    ensures
        units is Some <==> count * UNITS_PER_PIXEL <= u32::MAX,
        units matches Some(u) ==> u == count * UNITS_PER_PIXEL,
{
    count.checked_mul(UNITS_PER_PIXEL)
}

} // verus!
