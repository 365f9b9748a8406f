//! The list of drawing operations that makes up a frame, and what holds of it.
//!
//! A frame is painted back to front: the background, the footprint of the
//! board in the border colour, then the sixty-four cells, file by file and
//! rank by rank within a file. Each cell is its fill, then the highlight
//! overlay if the square is highlighted, then the image of the piece if the
//! square is occupied.

use vstd::prelude::*;
use crate::draw::DrawOp;
use crate::grid::{border_rect, cell_color, cell_rect};
use crate::layout::LayoutRect;
use crate::piece::slot_index;
use crate::settings::ViewSettings;
use crate::snapshot::SnapshotView;
use crate::square::{index_square, on_board, square_index};

verus! {

/// The operations that paint one cell, bottom first.
pub open spec fn cell_ops<'a, T>(
    settings: ViewSettings,
    assets: Seq<T>,
    layout: LayoutRect,
    snapshot: SnapshotView,
    square: (int, int),
) -> Seq<DrawOp<'a, T>> {
    let rect = cell_rect(layout, square);
    let fill = seq![
        DrawOp::Rectangle { color: cell_color(settings, snapshot.selected, square), rect },
    ];
    let overlay = if snapshot.highlighted.contains(square) {
        seq![DrawOp::Ellipse { color: settings.move_color, rect }]
    } else {
        Seq::empty()
    };
    let image = match snapshot.piece_at(square) {
        Some(piece) => seq![
            DrawOp::Image { asset: &assets[slot_index(piece.side, piece.kind)], rect },
        ],
        None => Seq::empty(),
    };
    fill + overlay + image
}

/// The operations that paint the first `count` cells of the walk of the board.
pub open spec fn grid_ops<'a, T>(
    settings: ViewSettings,
    assets: Seq<T>,
    layout: LayoutRect,
    snapshot: SnapshotView,
    count: nat,
) -> Seq<DrawOp<'a, T>>
    decreases count,
{
    if count == 0 {
        Seq::empty()
    } else {
        grid_ops(settings, assets, layout, snapshot, (count - 1) as nat) + cell_ops(
            settings,
            assets,
            layout,
            snapshot,
            index_square(count - 1),
        )
    }
}

/// The operations that paint what lies behind the grid.
pub open spec fn backdrop_ops<'a, T>(settings: ViewSettings, layout: LayoutRect) -> Seq<
    DrawOp<'a, T>,
> {
    seq![
        DrawOp::Clear { color: settings.background_color },
        DrawOp::Rectangle { color: settings.border_color, rect: border_rect(layout) },
    ]
}

/// The operations that paint a whole frame.
pub open spec fn frame_ops<'a, T>(
    settings: ViewSettings,
    assets: Seq<T>,
    layout: LayoutRect,
    snapshot: SnapshotView,
) -> Seq<DrawOp<'a, T>> {
    backdrop_ops(settings, layout) + grid_ops(settings, assets, layout, snapshot, 64)
}

/// Where the operations of a square's cell start in the frame.
pub open spec fn cell_start<T>(
    settings: ViewSettings,
    assets: Seq<T>,
    layout: LayoutRect,
    snapshot: SnapshotView,
    square: (int, int),
) -> int {
    (backdrop_ops::<T>(settings, layout).len() + grid_ops(
        settings,
        assets,
        layout,
        snapshot,
        square_index(square) as nat,
    ).len()) as int
}

/// The cells painted first stay first: the operations of fewer cells are
/// the beginning of the operations of more cells.
pub proof fn lemma_grid_ops_prefix<T>(
    settings: ViewSettings,
    assets: Seq<T>,
    layout: LayoutRect,
    snapshot: SnapshotView,
    fewer: nat,
    more: nat,
)
    requires
        fewer <= more,
    ensures
        grid_ops(settings, assets, layout, snapshot, fewer).len() <= grid_ops(
            settings,
            assets,
            layout,
            snapshot,
            more,
        ).len(),
        grid_ops(settings, assets, layout, snapshot, more).subrange(
            0,
            grid_ops(settings, assets, layout, snapshot, fewer).len() as int,
        ) == grid_ops(settings, assets, layout, snapshot, fewer),
    decreases more,
{
    let short = grid_ops(settings, assets, layout, snapshot, fewer);
    let long = grid_ops(settings, assets, layout, snapshot, more);
    if fewer == more {
        assert(long.subrange(0, short.len() as int) =~= short);
    } else {
        let previous = grid_ops(settings, assets, layout, snapshot, (more - 1) as nat);
        lemma_grid_ops_prefix(settings, assets, layout, snapshot, fewer, (more - 1) as nat);
        assert(long.subrange(0, short.len() as int) =~= previous.subrange(0, short.len() as int));
    }
}

/// Every cell takes one to three operations, so the grid of `count` cells
/// takes between `count` and three times `count`.
pub proof fn lemma_grid_ops_len<T>(
    settings: ViewSettings,
    assets: Seq<T>,
    layout: LayoutRect,
    snapshot: SnapshotView,
    count: nat,
)
    ensures
        count <= grid_ops(settings, assets, layout, snapshot, count).len() <= 3 * count,
    decreases count,
{
    if count > 0 {
        lemma_grid_ops_len(settings, assets, layout, snapshot, (count - 1) as nat);
    }
}

/// A frame starts with the background and the footprint of the board, and
/// holds between 66 and 194 operations.
pub proof fn lemma_frame_backdrop<T>(
    settings: ViewSettings,
    assets: Seq<T>,
    layout: LayoutRect,
    snapshot: SnapshotView,
)
    ensures
        ({
            let frame = frame_ops(settings, assets, layout, snapshot);
            let clear: DrawOp<T> = DrawOp::Clear { color: settings.background_color };
            let footprint: DrawOp<T> = DrawOp::Rectangle {
                color: settings.border_color,
                rect: border_rect(layout),
            };
            &&& 66 <= frame.len() <= 194
            &&& frame[0] == clear
            &&& frame[1] == footprint
        }),
{
    lemma_grid_ops_len(settings, assets, layout, snapshot, 64);
}

/// The operations of a square's cell stand together in the frame, in
/// their order, from `cell_start` on.
pub proof fn lemma_cell_in_frame<T>(
    settings: ViewSettings,
    assets: Seq<T>,
    layout: LayoutRect,
    snapshot: SnapshotView,
    square: (int, int),
)
    requires
        on_board(square),
    ensures
        ({
            let frame = frame_ops(settings, assets, layout, snapshot);
            let cell = cell_ops(settings, assets, layout, snapshot, square);
            let start = cell_start(settings, assets, layout, snapshot, square);
            &&& 2 <= start
            &&& start + cell.len() <= frame.len()
            &&& frame.subrange(start, start + cell.len()) == cell
        }),
{
    let frame = frame_ops(settings, assets, layout, snapshot);
    let cell = cell_ops(settings, assets, layout, snapshot, square);
    let start = cell_start(settings, assets, layout, snapshot, square);
    let index = square_index(square) as nat;
    let before = grid_ops(settings, assets, layout, snapshot, index);
    let through = grid_ops(settings, assets, layout, snapshot, index + 1);
    let grid = grid_ops(settings, assets, layout, snapshot, 64);
    assert(index_square(index as int) == square);
    assert(through == before + cell);
    lemma_grid_ops_prefix(settings, assets, layout, snapshot, index + 1, 64);
    assert forall|i: int| 0 <= i < cell.len() implies frame[start + i] == cell[i] by {
        assert(grid.subrange(0, through.len() as int)[before.len() + i] == through[before.len()
            + i]);
    }
    assert(frame.subrange(start, start + cell.len()) =~= cell);
}

/// Cells are painted in the order of the walk: the operations of a square
/// that comes earlier end before those of a later square start.
pub proof fn lemma_cells_in_walk_order<T>(
    settings: ViewSettings,
    assets: Seq<T>,
    layout: LayoutRect,
    snapshot: SnapshotView,
    earlier: (int, int),
    later: (int, int),
)
    requires
        on_board(earlier),
        on_board(later),
        square_index(earlier) < square_index(later),
    ensures
        cell_start(settings, assets, layout, snapshot, earlier) + cell_ops(
            settings,
            assets,
            layout,
            snapshot,
            earlier,
        ).len() <= cell_start(settings, assets, layout, snapshot, later),
{
    let index = square_index(earlier) as nat;
    assert(index_square(index as int) == earlier);
    lemma_grid_ops_prefix(
        settings,
        assets,
        layout,
        snapshot,
        index + 1,
        square_index(later) as nat,
    );
}

/// The first operation of every cell is its fill: a rectangle over the
/// cell in `move_color` for the selected square and in the checkerboard
/// colour for every other square.
pub proof fn lemma_cell_fill<T>(
    settings: ViewSettings,
    assets: Seq<T>,
    layout: LayoutRect,
    snapshot: SnapshotView,
    square: (int, int),
)
    requires
        on_board(square),
    ensures
        ({
            let frame = frame_ops(settings, assets, layout, snapshot);
            let start = cell_start(settings, assets, layout, snapshot, square);
            let fill: DrawOp<T> = DrawOp::Rectangle {
                color: cell_color(settings, snapshot.selected, square),
                rect: cell_rect(layout, square),
            };
            &&& 0 <= start < frame.len()
            &&& frame[start] == fill
        }),
{
    let frame = frame_ops(settings, assets, layout, snapshot);
    let cell = cell_ops(settings, assets, layout, snapshot, square);
    let start = cell_start(settings, assets, layout, snapshot, square);
    lemma_cell_in_frame(settings, assets, layout, snapshot, square);
    assert(frame.subrange(start, start + cell.len())[0] == cell[0]);
}

/// Selecting a square changes one operation of the frame and no other: the
/// fill of that square's cell, which takes `move_color`. The frame is as
/// long as without the selection, and every other operation is the same.
pub proof fn lemma_selection_changes_one_op<T>(
    settings: ViewSettings,
    assets: Seq<T>,
    layout: LayoutRect,
    snapshot: SnapshotView,
    square: (int, int),
)
    requires
        on_board(square),
    ensures
        ({
            let plain = SnapshotView { selected: None, ..snapshot };
            let chosen = SnapshotView { selected: Some(square), ..snapshot };
            let before = frame_ops(settings, assets, layout, plain);
            let after = frame_ops(settings, assets, layout, chosen);
            let start = cell_start(settings, assets, layout, plain, square);
            let fill: DrawOp<T> = DrawOp::Rectangle {
                color: settings.move_color,
                rect: cell_rect(layout, square),
            };
            &&& 0 <= start < before.len()
            &&& start == cell_start(settings, assets, layout, chosen, square)
            &&& after == before.update(start, fill)
        }),
{
    let plain = SnapshotView { selected: None, ..snapshot };
    let chosen = SnapshotView { selected: Some(square), ..snapshot };
    let index = square_index(square) as nat;
    lemma_grid_selection(settings, assets, layout, snapshot, square, index);
    lemma_grid_selection(settings, assets, layout, snapshot, square, 64);
    lemma_cell_fill(settings, assets, layout, plain, square);
    let before = frame_ops(settings, assets, layout, plain);
    let after = frame_ops(settings, assets, layout, chosen);
    let start = cell_start(settings, assets, layout, plain, square);
    let fill: DrawOp<T> = DrawOp::Rectangle {
        color: settings.move_color,
        rect: cell_rect(layout, square),
    };
    assert(after =~= before.update(start, fill));
}

/// The grid of the first `count` cells with a square selected is the grid
/// without a selection, but for the fill of that square's cell once the
/// walk has reached it.
proof fn lemma_grid_selection<T>(
    settings: ViewSettings,
    assets: Seq<T>,
    layout: LayoutRect,
    snapshot: SnapshotView,
    square: (int, int),
    count: nat,
)
    requires
        on_board(square),
        count <= 64,
    ensures
        ({
            let plain = SnapshotView { selected: None, ..snapshot };
            let chosen = SnapshotView { selected: Some(square), ..snapshot };
            let before = grid_ops(settings, assets, layout, plain, count);
            let after = grid_ops(settings, assets, layout, chosen, count);
            let reached = grid_ops(settings, assets, layout, plain, square_index(square) as nat);
            let fill: DrawOp<T> = DrawOp::Rectangle {
                color: settings.move_color,
                rect: cell_rect(layout, square),
            };
            &&& count <= square_index(square) ==> after == before
            &&& count > square_index(square) ==> reached.len() < before.len() && after
                == before.update(reached.len() as int, fill)
        }),
    decreases count,
{
    if count > 0 {
        let plain = SnapshotView { selected: None, ..snapshot };
        let chosen = SnapshotView { selected: Some(square), ..snapshot };
        let last = index_square(count - 1);
        let index = square_index(square);
        lemma_grid_selection(settings, assets, layout, snapshot, square, (count - 1) as nat);
        let before_rest = grid_ops(settings, assets, layout, plain, (count - 1) as nat);
        let after_rest = grid_ops(settings, assets, layout, chosen, (count - 1) as nat);
        let before_last = cell_ops(settings, assets, layout, plain, last);
        let after_last = cell_ops(settings, assets, layout, chosen, last);
        let before = grid_ops(settings, assets, layout, plain, count);
        let after = grid_ops(settings, assets, layout, chosen, count);
        let fill: DrawOp<T> = DrawOp::Rectangle {
            color: settings.move_color,
            rect: cell_rect(layout, square),
        };
        assert(before == before_rest + before_last);
        assert(after == after_rest + after_last);
        if count - 1 == index {
            assert(last == square);
            assert(after_last =~= before_last.update(0, fill));
            assert(after =~= before.update(before_rest.len() as int, fill));
        } else {
            assert(last != square);
            assert(after_last =~= before_last);
            if count - 1 > index {
                let reached = grid_ops(settings, assets, layout, plain, index as nat);
                assert(after =~= before.update(reached.len() as int, fill));
            }
        }
    }
}

/// A highlighted square gets its overlay whether or not a piece stands on
/// it: an ellipse in `move_color` over the cell, right after the fill. If
/// a piece stands on the square, its image follows the ellipse and is the
/// last operation of the cell, so the piece shows on top.
pub proof fn lemma_highlight_overlay<T>(
    settings: ViewSettings,
    assets: Seq<T>,
    layout: LayoutRect,
    snapshot: SnapshotView,
    square: (int, int),
)
    requires
        on_board(square),
        snapshot.highlighted.contains(square),
    ensures
        ({
            let frame = frame_ops(settings, assets, layout, snapshot);
            let cell = cell_ops(settings, assets, layout, snapshot, square);
            let start = cell_start(settings, assets, layout, snapshot, square);
            let overlay: DrawOp<T> = DrawOp::Ellipse {
                color: settings.move_color,
                rect: cell_rect(layout, square),
            };
            &&& start + cell.len() <= frame.len()
            &&& frame[start + 1] == overlay
            &&& match snapshot.piece_at(square) {
                Some(piece) => {
                    &&& cell.len() == 3
                    &&& frame[start + 2] == DrawOp::Image {
                        asset: &assets[slot_index(piece.side, piece.kind)],
                        rect: cell_rect(layout, square),
                    }
                },
                None => cell.len() == 2,
            }
        }),
{
    let frame = frame_ops(settings, assets, layout, snapshot);
    let cell = cell_ops(settings, assets, layout, snapshot, square);
    let start = cell_start(settings, assets, layout, snapshot, square);
    lemma_cell_in_frame(settings, assets, layout, snapshot, square);
    assert(frame.subrange(start, start + cell.len())[1] == cell[1]);
    if snapshot.piece_at(square) is Some {
        assert(frame.subrange(start, start + cell.len())[2] == cell[2]);
    }
}

/// An occupied square gets the image of its piece as the last operation of
/// its cell, stretched over the cell.
pub proof fn lemma_piece_image<T>(
    settings: ViewSettings,
    assets: Seq<T>,
    layout: LayoutRect,
    snapshot: SnapshotView,
    square: (int, int),
)
    requires
        on_board(square),
        snapshot.pieces.contains_key(square),
    ensures
        ({
            let frame = frame_ops(settings, assets, layout, snapshot);
            let cell = cell_ops(settings, assets, layout, snapshot, square);
            let start = cell_start(settings, assets, layout, snapshot, square);
            let piece = snapshot.pieces[square];
            &&& 2 <= cell.len() <= 3
            &&& start + cell.len() <= frame.len()
            &&& frame[start + cell.len() - 1] == DrawOp::Image {
                asset: &assets[slot_index(piece.side, piece.kind)],
                rect: cell_rect(layout, square),
            }
        }),
{
    let frame = frame_ops(settings, assets, layout, snapshot);
    let cell = cell_ops(settings, assets, layout, snapshot, square);
    let start = cell_start(settings, assets, layout, snapshot, square);
    lemma_cell_in_frame(settings, assets, layout, snapshot, square);
    assert(frame.subrange(start, start + cell.len())[cell.len() - 1] == cell[cell.len() - 1]);
}

/// A frame is a function of the settings, the images, the layout and the
/// snapshot: two frames painted from the same four are the same list.
pub proof fn lemma_frame_repeatable<T>(
    settings: ViewSettings,
    assets: Seq<T>,
    layout: LayoutRect,
    snapshot: SnapshotView,
    first: Seq<DrawOp<T>>,
    second: Seq<DrawOp<T>>,
)
    requires
        first == frame_ops(settings, assets, layout, snapshot),
        second == frame_ops(settings, assets, layout, snapshot),
    ensures
        first == second,
{
}

} // verus!
