//! The grid of sixty-four cells inside the board's border: where each cell
//! lies and what colour fills it.
//!
//! The grid is inset from the board's footprint by [`BORDER_INSET`] on each
//! side and split into eight columns and eight rows of equal cells. Files
//! run from left to right; ranks run from bottom to top, so rank 0 is the
//! lowest row. The grid always starts [`BORDER_INSET`] below the top of
//! the surface, whatever the layout's vertical offset.

use vstd::prelude::*;
use crate::color::Color;
use crate::draw::Rect;
use crate::layout::LayoutRect;
use crate::settings::ViewSettings;
use crate::snapshot::BoardSnapshot;
use crate::square::{on_board, SquareCoordinate};
use crate::units::BORDER_INSET;

verus! {

/// The edge of one cell: an eighth of the board's edge less the inset on
/// both sides, rounded down. Negative for a board smaller than its border.
pub open spec fn cell_size(layout: LayoutRect) -> int {
    (layout.board_size - 2 * BORDER_INSET) / 8
}

/// The left edge of the cells of a file.
pub open spec fn cell_left(layout: LayoutRect, file: int) -> int {
    layout.x_offset + BORDER_INSET + cell_size(layout) * file
}

/// The top edge of the cells of a rank. Rank 7 is the top row.
pub open spec fn cell_top(layout: LayoutRect, rank: int) -> int {
    BORDER_INSET + cell_size(layout) * (7 - rank)
}

/// The rectangle of the cell of a square.
pub open spec fn cell_rect(layout: LayoutRect, square: (int, int)) -> Rect {
    Rect {
        x: cell_left(layout, square.0) as i64,
        y: cell_top(layout, square.1) as i64,
        width: cell_size(layout) as i64,
        height: cell_size(layout) as i64,
    }
}

/// The footprint of the board: a square of the board's edge at the layout's
/// horizontal offset and at the top of the surface.
pub open spec fn border_rect(layout: LayoutRect) -> Rect {
    Rect {
        x: layout.x_offset as i64,
        y: 0,
        width: layout.board_size as i64,
        height: layout.board_size as i64,
    }
}

/// The checkerboard colour of a square: `black_color` where file and rank
/// differ in parity, `white_color` where they agree.
pub open spec fn base_color(settings: ViewSettings, square: (int, int)) -> Color {
    if square.0 % 2 != square.1 % 2 {
        settings.black_color
    } else {
        settings.white_color
    }
}

/// The colour that fills a square: `move_color` for the selected square,
/// the checkerboard colour for every other.
pub open spec fn cell_color(
    settings: ViewSettings,
    selected: Option<(int, int)>,
    square: (int, int),
) -> Color {
    if selected == Some(square) {
        settings.move_color
    } else {
        base_color(settings, square)
    }
}

/// The quotient of a number by eight, rounded down.
fn floor_eighth(value: i64) -> (quotient: i64)
    requires
        -1000 <= value,
    ensures
        quotient == value / 8,
{
    if value >= 0 {
        value / 8
    } else {
        -((7 - value) / 8)
    }
}

impl LayoutRect {
    /// The edge of one cell of the grid.
    pub fn cell_size(&self) -> (edge: i64)
        ensures
            edge == cell_size(*self),
            -20 <= edge < 0x2000_0000,
    {
        floor_eighth(self.board_size as i64 - 2 * (BORDER_INSET as i64))
    }

    /// The rectangle of the cell of `square`.
    pub fn cell_rect(&self, square: SquareCoordinate) -> (rect: Rect)
        ensures
            rect == cell_rect(*self, square@),
            rect.x == cell_left(*self, square@.0),
            rect.y == cell_top(*self, square@.1),
            rect.width == cell_size(*self),
            rect.height == cell_size(*self),
    {
        let edge = self.cell_size();
        let file = square.file() as i64;
        let rank = square.rank() as i64;
        assert(-140 <= edge * file <= 7 * 0x2000_0000) by (nonlinear_arith)
            requires
                -20 <= edge < 0x2000_0000,
                0 <= file < 8,
        ;
        assert(-140 <= edge * (7 - rank) <= 7 * 0x2000_0000) by (nonlinear_arith)
            requires
                -20 <= edge < 0x2000_0000,
                0 <= rank < 8,
        ;
        Rect {
            x: self.x_offset as i64 + BORDER_INSET as i64 + edge * file,
            y: BORDER_INSET as i64 + edge * (7 - rank),
            width: edge,
            height: edge,
        }
    }

    /// The footprint of the board.
    pub fn border_rect(&self) -> (rect: Rect)
        ensures
            rect == border_rect(*self),
    {
        Rect {
            x: self.x_offset as i64,
            y: 0,
            width: self.board_size as i64,
            height: self.board_size as i64,
        }
    }
}

impl ViewSettings {
    /// The checkerboard colour of `square`.
    pub fn base_color(&self, square: SquareCoordinate) -> (color: Color)
        ensures
            color == base_color(*self, square@),
    {
        if square.file() % 2 != square.rank() % 2 {
            self.black_color
        } else {
            self.white_color
        }
    }

    /// The colour that fills `square` in a frame of `snapshot`.
    pub fn cell_color(&self, snapshot: &BoardSnapshot, square: SquareCoordinate) -> (color: Color)
        ensures
            color == cell_color(*self, snapshot@.selected, square@),
    {
        if snapshot.is_selected(square) {
            self.move_color
        } else {
            self.base_color(square)
        }
    }
}

/// The checkerboard colour of a square depends on nothing but the parity of
/// file plus rank: `black_color` where the sum is odd, `white_color` where
/// it is even. Where the two colours differ, a square has `black_color` if
/// and only if the sum is odd.
pub proof fn lemma_base_color_parity(settings: ViewSettings, square: (int, int))
    ensures
        (square.0 + square.1) % 2 == 1 ==> base_color(settings, square) == settings.black_color,
        (square.0 + square.1) % 2 == 0 ==> base_color(settings, square) == settings.white_color,
        settings.black_color != settings.white_color ==> (base_color(settings, square)
            == settings.black_color <==> (square.0 + square.1) % 2 == 1),
{
}

/// Selection changes the fill of the selected square and of no other:
/// the selected square is filled with `move_color`, every other square
/// with its checkerboard colour.
pub proof fn lemma_selection_overrides_one_cell(
    settings: ViewSettings,
    selected: Option<(int, int)>,
    square: (int, int),
)
    ensures
        selected == Some(square) ==> cell_color(settings, selected, square) == settings.move_color,
        selected != Some(square) ==> cell_color(settings, selected, square) == base_color(
            settings,
            square,
        ),
        cell_color(settings, None, square) == base_color(settings, square),
{
}

/// The geometry of a cell is held without loss: the fields of its rectangle
/// are the numbers the formulas give, and the cell is square.
pub proof fn lemma_cell_rect_exact(layout: LayoutRect, square: (int, int))
    requires
        on_board(square),
    ensures
        cell_rect(layout, square).x == cell_left(layout, square.0),
        cell_rect(layout, square).y == cell_top(layout, square.1),
        cell_rect(layout, square).width == cell_size(layout),
        cell_rect(layout, square).height == cell_size(layout),
        border_rect(layout).x == layout.x_offset,
        border_rect(layout).width == layout.board_size,
{
    let edge = cell_size(layout);
    let file = square.0;
    let rank = square.1;
    assert(-140 <= edge * file <= 7 * 0x2000_0000) by (nonlinear_arith)
        requires
            -20 <= edge < 0x2000_0000,
            0 <= file < 8,
    ;
    assert(-140 <= edge * (7 - rank) <= 7 * 0x2000_0000) by (nonlinear_arith)
        requires
            -20 <= edge < 0x2000_0000,
            0 <= rank < 8,
    ;
}

/// Cells tile the grid: each file starts where the one to its left ends,
/// each rank starts where the one above it ends, rank 0 is the bottom row,
/// and the eight columns fall short of the space inside the border by less
/// than eight units (by nothing where that space is a multiple of eight).
pub proof fn lemma_cells_tile(layout: LayoutRect, file: int, rank: int)
    ensures
        cell_left(layout, file + 1) == cell_left(layout, file) + cell_size(layout),
        cell_top(layout, rank) == cell_top(layout, rank + 1) + cell_size(layout),
        cell_left(layout, 0) == layout.x_offset + BORDER_INSET,
        cell_top(layout, 7) == BORDER_INSET,
        cell_top(layout, 0) == BORDER_INSET + 7 * cell_size(layout),
        0 <= (layout.board_size - 2 * BORDER_INSET) - 8 * cell_size(layout) < 8,
{
    let edge = cell_size(layout);
    assert(edge * (file + 1) == edge * file + edge) by (nonlinear_arith);
    assert(edge * (7 - rank) == edge * (7 - (rank + 1)) + edge) by (nonlinear_arith);
}

/// On a board at least as large as its border, every cell lies inside the
/// footprint of the board, at least the inset away from each of its edges.
pub proof fn lemma_cell_within_border(layout: LayoutRect, square: (int, int))
    requires
        on_board(square),
        layout.board_size >= 2 * BORDER_INSET,
    ensures
        0 <= cell_size(layout),
        layout.x_offset + BORDER_INSET <= cell_left(layout, square.0),
        cell_left(layout, square.0) + cell_size(layout) <= layout.x_offset + layout.board_size
            - BORDER_INSET,
        BORDER_INSET <= cell_top(layout, square.1),
        cell_top(layout, square.1) + cell_size(layout) <= layout.board_size - BORDER_INSET,
{
    let edge = cell_size(layout);
    let file = square.0;
    let rank = square.1;
    assert(0 <= edge * file && edge * file + edge <= 8 * edge) by (nonlinear_arith)
        requires
            0 <= edge,
            0 <= file < 8,
    ;
    assert(0 <= edge * (7 - rank) && edge * (7 - rank) + edge <= 8 * edge) by (nonlinear_arith)
        requires
            0 <= edge,
            0 <= rank < 8,
    ;
}

/// The cells of two different squares do not overlap: one lies wholly to
/// the side of the other, or wholly above it.
pub proof fn lemma_cells_disjoint(layout: LayoutRect, a: (int, int), b: (int, int))
    requires
        on_board(a),
        on_board(b),
        a != b,
        0 <= cell_size(layout),
    ensures
        ({
            let edge = cell_size(layout);
            ||| cell_left(layout, a.0) + edge <= cell_left(layout, b.0)
            ||| cell_left(layout, b.0) + edge <= cell_left(layout, a.0)
            ||| cell_top(layout, a.1) + edge <= cell_top(layout, b.1)
            ||| cell_top(layout, b.1) + edge <= cell_top(layout, a.1)
        }),
{
    let edge = cell_size(layout);
    if a.0 < b.0 {
        assert(edge * a.0 + edge <= edge * b.0) by (nonlinear_arith)
            requires
                0 <= edge,
                a.0 + 1 <= b.0,
        ;
    } else if b.0 < a.0 {
        assert(edge * b.0 + edge <= edge * a.0) by (nonlinear_arith)
            requires
                0 <= edge,
                b.0 + 1 <= a.0,
        ;
    } else if a.1 < b.1 {
        assert(edge * (7 - b.1) + edge <= edge * (7 - a.1)) by (nonlinear_arith)
            requires
                0 <= edge,
                a.1 + 1 <= b.1,
        ;
    } else {
        assert(edge * (7 - a.1) + edge <= edge * (7 - b.1)) by (nonlinear_arith)
            requires
                0 <= edge,
                b.1 + 1 <= a.1,
        ;
    }
}

} // verus!
