//! Fitting a square board into a viewport.
//!
//! The board is inset from the left and the right by at least a fifth of
//! the viewport's width. If the width that remains is no more than the
//! height, the board takes it and is centred vertically; otherwise the board
//! takes the full height and is centred horizontally. Quotients round down.

use vstd::prelude::*;
use crate::units::{BORDER_INSET, UNITS_PER_PIXEL};

verus! {

/// Where the board lies in the viewport: the length of its edge and the
/// distance of its top left corner from the viewport's, all in units.
#[derive(Clone, Copy, PartialEq, Eq, Structural, Debug)]
pub struct LayoutRect {
    pub board_size: u32,
    pub x_offset: u32,
    pub y_offset: u32,
}

/// The least inset from the left and from the right: a fifth of the width.
pub open spec fn min_padding(width: int) -> int {
    width / 5
}

/// Whether the width, less the inset on both sides, is no more than the height.
pub open spec fn width_constrained(width: int, height: int) -> bool {
    width - 2 * min_padding(width) <= height
}

/// The edge of the board fitted into a viewport.
pub open spec fn fitted_board_size(width: int, height: int) -> int {
    if width_constrained(width, height) {
        width - 2 * min_padding(width)
    } else {
        height
    }
}

/// The distance of the fitted board from the left edge of the viewport.
pub open spec fn fitted_x_offset(width: int, height: int) -> int {
    if width_constrained(width, height) {
        min_padding(width)
    } else {
        (width - height) / 2
    }
}

/// The distance of the fitted board from the top edge of the viewport.
pub open spec fn fitted_y_offset(width: int, height: int) -> int {
    if width_constrained(width, height) {
        (height - fitted_board_size(width, height)) / 2
    } else {
        0
    }
}

impl LayoutRect {
    /// Whether this is the layout of the board fitted into a viewport of the given size.
    pub open spec fn is_fitted(self, width: int, height: int) -> bool {
        &&& self.board_size == fitted_board_size(width, height)
        &&& self.x_offset == fitted_x_offset(width, height)
        &&& self.y_offset == fitted_y_offset(width, height)
    }
}

/// The fitted board is no larger than either side of the viewport, its
/// offsets are not negative, and it lies within the viewport.
pub proof fn lemma_fitted_within_viewport(width: int, height: int)
    requires
        0 < width,
        0 < height,
    ensures
        0 <= fitted_board_size(width, height) <= width,
        fitted_board_size(width, height) <= height,
        0 <= fitted_x_offset(width, height),
        0 <= fitted_y_offset(width, height),
        fitted_x_offset(width, height) + fitted_board_size(width, height) <= width,
        fitted_y_offset(width, height) + fitted_board_size(width, height) <= height,
{
}

/// The fitted board is centred: the space left of it and the space right of
/// it differ by less than one unit, and so do the space above and below it
/// when the width constrains the board; when the height does, the board
/// spans the viewport from top to bottom.
pub proof fn lemma_fitted_centred(width: int, height: int)
    requires
        0 < width,
        0 < height,
    ensures
        ({
            let board = fitted_board_size(width, height);
            let left = fitted_x_offset(width, height);
            let top = fitted_y_offset(width, height);
            &&& 0 <= (width - board - left) - left <= 1
            &&& width_constrained(width, height) ==> left == min_padding(width) && 0 <= (height
                - board - top) - top <= 1
            &&& !width_constrained(width, height) ==> top == 0 && board == height
        }),
{
}

/// For a viewport of whole pixels nothing is rounded: the inset is exactly
/// a fifth of the width, the board is exactly centred both ways, and the
/// grid inside its border splits into eight equal columns.
pub proof fn lemma_fitted_exact_on_pixels(width: int, height: int)
    requires
        0 < width,
        0 < height,
        width % (UNITS_PER_PIXEL as int) == 0,
        height % (UNITS_PER_PIXEL as int) == 0,
    ensures
        ({
            let board = fitted_board_size(width, height);
            let left = fitted_x_offset(width, height);
            let top = fitted_y_offset(width, height);
            &&& 5 * min_padding(width) == width
            &&& 2 * left + board == width
            &&& width_constrained(width, height) ==> 2 * top + board == height
            &&& (board - 2 * BORDER_INSET) % 8 == 0
        }),
{
    let columns = width / 40;
    let rows = height / 40;
    assert(width == 40 * columns);
    assert(height == 40 * rows);
    assert(min_padding(width) == 8 * columns);
    if width_constrained(width, height) {
        assert(fitted_board_size(width, height) == 8 * (3 * columns));
        assert(height - fitted_board_size(width, height) == 2 * (20 * rows - 12 * columns));
    } else {
        assert(fitted_board_size(width, height) == 8 * (5 * rows));
        assert(width - height == 2 * (20 * columns - 20 * rows));
    }
}

} // verus!
