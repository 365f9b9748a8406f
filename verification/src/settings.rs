//! The configuration of a board view.

use vstd::prelude::*;
use crate::color::{Color, Rgba};
use crate::layout::LayoutRect;

verus! {

/// Nominal sizes and the five colours of a board view.
///
/// Sizes are in units; see [`crate::units::UNITS_PER_PIXEL`].
#[derive(Clone, Copy, PartialEq, Eq, Structural, Debug)]
pub struct ViewSettings {
    /// Nominal edge of the board.
    pub board_size: u32,
    /// Nominal distance of the board from the left edge of the viewport.
    pub padding: u32,
    /// Fills the whole surface behind the board.
    pub background_color: Color,
    /// Fills the footprint of the board; shows as a margin around the grid.
    pub border_color: Color,
    /// Fills the squares whose file and rank have the same parity.
    pub white_color: Color,
    /// Fills the squares whose file and rank differ in parity.
    pub black_color: Color,
    /// Fills the selected square and the overlay of each highlighted square.
    pub move_color: Color,
}

impl ViewSettings {
    /// The default configuration: a 640 pixel board, 192 pixels from the left.
    pub open spec fn is_default(self) -> bool {
        &&& self.board_size == 25600
        &&& self.padding == 7680
        &&& self.background_color@ == (Rgba { red: 340, green: 310, blue: 310, alpha: 1000 })
        &&& self.border_color@ == (Rgba { red: 150, green: 120, blue: 100, alpha: 1000 })
        &&& self.white_color@ == (Rgba { red: 290, green: 390, blue: 540, alpha: 1000 })
        &&& self.black_color@ == (Rgba { red: 820, green: 870, blue: 960, alpha: 1000 })
        &&& self.move_color@ == (Rgba { red: 580, green: 590, blue: 630, alpha: 1000 })
    }

    /// The layout of a board of the nominal size, the nominal padding from
    /// the left edge of the viewport and at its top.
    pub fn nominal_layout(&self) -> (layout: LayoutRect)
        ensures
            layout == (LayoutRect {
                board_size: self.board_size,
                x_offset: self.padding,
                y_offset: 0,
            }),
    {
        LayoutRect { board_size: self.board_size, x_offset: self.padding, y_offset: 0 }
    }
}

impl Default for ViewSettings {
    fn default() -> (settings: ViewSettings)
        ensures
            settings.is_default(),
    {
        ViewSettings {
            board_size: 25600,
            padding: 7680,
            background_color: Color::from_thousandths(340, 310, 310, 1000),
            border_color: Color::from_thousandths(150, 120, 100, 1000),
            white_color: Color::from_thousandths(290, 390, 540, 1000),
            black_color: Color::from_thousandths(820, 870, 960, 1000),
            move_color: Color::from_thousandths(580, 590, 630, 1000),
        }
    }
}

} // verus!
