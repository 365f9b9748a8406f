//! The drawing operations a view emits.

use vstd::prelude::*;
use crate::color::Color;

verus! {

/// An axis-aligned rectangle in units: its top left corner and its size.
///
/// The vertical axis points down. A board too small to hold its border has
/// cells of negative size; the rectangle records them as computed.
#[derive(Clone, Copy, PartialEq, Eq, Structural, Debug)]
pub struct Rect {
    pub x: i64,
    pub y: i64,
    pub width: i64,
    pub height: i64,
}

/// One step of painting a frame. Later operations paint over earlier ones.
///
/// `T` is the host's image handle; an image operation borrows it from the
/// asset index of the view that emitted it.
#[derive(Clone, Copy, PartialEq, Eq, Debug)]
pub enum DrawOp<'a, T> {
    /// Fill the whole surface with a colour.
    Clear { color: Color },
    /// Fill a rectangle with a colour.
    Rectangle { color: Color, rect: Rect },
    /// Fill the ellipse inscribed in a rectangle with a colour.
    Ellipse { color: Color, rect: Rect },
    /// Draw an image stretched to a rectangle.
    Image { asset: &'a T, rect: Rect },
}

} // verus!
