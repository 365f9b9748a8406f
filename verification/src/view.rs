//! The board view: from a viewport to a layout, and from a layout and a
//! snapshot to the drawing operations of one frame.
//!
//! A frame is painted back to front: the background, the footprint of the
//! board in the border colour, then the sixty-four cells. Each cell is its
//! fill, then the highlight overlay if the square is highlighted, then the
//! image of the piece if the square is occupied.

use vstd::prelude::*;
use vstd::view::View as _;
use crate::assets::{asset_path, first_missing, loaded_up_to, AssetIndex, AssetLoadError};
use crate::draw::DrawOp;
use crate::frame::{backdrop_ops, cell_ops, frame_ops, grid_ops};
use crate::layout::LayoutRect;
use crate::piece::{slot_index, PIECE_COUNT};
use crate::settings::ViewSettings;
use crate::snapshot::BoardSnapshot;
use crate::square::{index_square, SquareCoordinate};

verus! {

/// Directory that holds the piece images unless the host names another.
pub const DEFAULT_RESOURCE_ROOT: &'static str = "gui/resources/pieces";

/// A board view: its settings and the images of the pieces.
#[derive(Debug)]
pub struct View<T> {
    pub settings: ViewSettings,
    pub textures: AssetIndex<T>,
}

impl<T> View<T> {
    /// A view with the given settings and piece images.
    pub fn new(settings: ViewSettings, textures: AssetIndex<T>) -> (view: View<T>)
        ensures
            view.settings == settings,
            view.textures == textures,
    {
        View { settings, textures }
    }

    /// Builds the asset index from the outcome of loading each of the
    /// twelve piece images below [`DEFAULT_RESOURCE_ROOT`]; see
    /// [`AssetIndex::load`].
    pub fn create_textures(outcomes: Vec<Option<T>>) -> (result: Result<
        AssetIndex<T>,
        AssetLoadError,
    >)
        ensures
            match result {
                Ok(index) => {
                    &&& loaded_up_to(outcomes@, PIECE_COUNT as int)
                    &&& index@.len() == PIECE_COUNT
                    &&& forall|slot: int|
                        0 <= slot < PIECE_COUNT ==> outcomes@[slot] == Some(#[trigger] index@[slot])
                },
                Err(error) => {
                    &&& first_missing(outcomes@, slot_index(error.side, error.kind))
                    &&& error.path@ == asset_path(DEFAULT_RESOURCE_ROOT@, error.side, error.kind)
                },
            },
    {
        AssetIndex::load(DEFAULT_RESOURCE_ROOT, outcomes)
    }

    /// Fits the board into a viewport of the given width and height.
    ///
    /// The board is inset from the left and the right by at least a fifth
    /// of the width. If what remains of the width is no more than the
    /// height, the board takes it and is centred vertically; otherwise it
    /// takes the full height and is centred horizontally.
    pub fn calculate_size(&self, width: u32, height: u32) -> (layout: LayoutRect)
        ensures
            layout.is_fitted(width as int, height as int),
            layout.board_size <= width,
            layout.board_size <= height,
            layout.x_offset + layout.board_size <= width,
            layout.y_offset + layout.board_size <= height,
    {
        let min_padding = width / 5;
        if width - 2 * min_padding <= height {
            let board_size = width - 2 * min_padding;
            LayoutRect {
                board_size,
                x_offset: min_padding,
                y_offset: (height - board_size) / 2,
            }
        } else {
            LayoutRect { board_size: height, x_offset: (width - height) / 2, y_offset: 0 }
        }
    }

    /// The drawing operations of one frame, in the order they are to be issued.
    pub fn render<'a>(&'a self, layout: &LayoutRect, snapshot: &BoardSnapshot) -> (ops: Vec<
        DrawOp<'a, T>,
    >)
        ensures
            ops@ == frame_ops(self.settings, self.textures@, *layout, snapshot@),
    {
        let mut ops: Vec<DrawOp<'a, T>> = Vec::new();
        ops.push(DrawOp::Clear { color: self.settings.background_color });
        ops.push(
            DrawOp::Rectangle { color: self.settings.border_color, rect: layout.border_rect() },
        );
        assert(ops@ =~= backdrop_ops::<T>(self.settings, *layout));
        let mut file: u8 = 0;
        while file < 8
            invariant
                file <= 8,
                ops@ == backdrop_ops::<T>(self.settings, *layout) + grid_ops(
                    self.settings,
                    self.textures@,
                    *layout,
                    snapshot@,
                    (8 * file) as nat,
                ),
            decreases 8 - file,
        {
            let mut rank: u8 = 0;
            while rank < 8
                invariant
                    file < 8,
                    rank <= 8,
                    ops@ == backdrop_ops::<T>(self.settings, *layout) + grid_ops(
                        self.settings,
                        self.textures@,
                        *layout,
                        snapshot@,
                        (8 * file + rank) as nat,
                    ),
                decreases 8 - rank,
            {
                let ghost before = ops@;
                let ghost done = (8 * file + rank) as nat;
                let square = SquareCoordinate::new(file, rank).unwrap();
                assert(index_square(done as int) == square@);
                let rect = layout.cell_rect(square);
                ops.push(
                    DrawOp::Rectangle { color: self.settings.cell_color(snapshot, square), rect },
                );
                if snapshot.is_highlighted(square) {
                    ops.push(DrawOp::Ellipse { color: self.settings.move_color, rect });
                }
                match snapshot.piece_at(square) {
                    Some(piece) => {
                        let asset = self.textures.lookup(piece.kind, piece.side);
                        ops.push(DrawOp::Image { asset, rect });
                    },
                    None => {},
                }
                assert(ops@ =~= before + cell_ops(
                    self.settings,
                    self.textures@,
                    *layout,
                    snapshot@,
                    square@,
                ));
                assert(ops@ =~= backdrop_ops::<T>(self.settings, *layout) + grid_ops(
                    self.settings,
                    self.textures@,
                    *layout,
                    snapshot@,
                    done + 1,
                ));
                rank = rank + 1;
            }
            file = file + 1;
        }
        ops
    }
}

} // verus!
