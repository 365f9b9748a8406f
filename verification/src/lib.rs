//! Layout and compositing for a chess board drawn on a resizable viewport.
//!
//! The library turns a viewport size and a snapshot of the game (pieces,
//! selection, highlighted destinations) into an ordered list of drawing
//! operations. It draws nothing itself: a host walks the list and issues the
//! operations to its graphics backend.
//!
//! All lengths are whole numbers of *units*, [`UNITS_PER_PIXEL`] to the pixel,
//! and all colour channels are thousandths of full intensity, so that every
//! result is an exact integer that the contracts can pin down.
//!
//! ```text
//! let textures = AssetIndex::load("resources/pieces", outcomes)?;
//! let view = View::new(ViewSettings::default(), textures);
//! let layout = view.calculate_size(width, height);
//! for op in view.render(&layout, &snapshot) {
//!     // hand `op` to the graphics backend
//! }
//! ```

pub mod units;
pub mod color;
pub mod settings;
pub mod piece;
pub mod square;
pub mod assets;
pub mod snapshot;
pub mod draw;
pub mod layout;
pub mod grid;
pub mod frame;
pub mod view;

pub use assets::{AssetIndex, AssetLoadError};
pub use color::{Channel, Color, ConfigurationError, CHANNEL_MAX};
pub use draw::{DrawOp, Rect};
pub use layout::LayoutRect;
pub use piece::{PieceKind, PlacedPiece, Side, PIECE_COUNT};
pub use settings::ViewSettings;
pub use snapshot::BoardSnapshot;
pub use square::{SquareCoordinate, BOARD_EDGE};
pub use units::{pixels, BORDER_INSET, UNITS_PER_PIXEL};
pub use view::{View, DEFAULT_RESOURCE_ROOT};
