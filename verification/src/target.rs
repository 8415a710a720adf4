//! Render-target coordinates and clear values.

use vstd::prelude::*;

verus! {

/// An axis-aligned rectangle on a render target, in pixels.
#[derive(Copy, Clone, Debug, PartialEq, Eq, Structural)]
pub struct Rect {
    /// X coordinate of the top-left corner.
    pub x: u16,
    /// Y coordinate of the top-left corner.
    pub y: u16,
    /// Width of the rectangle.
    pub w: u16,
    /// Height of the rectangle.
    pub h: u16,
}

/// A depth clear value, carried as the IEEE-754 bit pattern of a 32-bit
/// float (verified code holds no float values).
pub type Depth = u32;

/// A stencil reference or clear value.
pub type Stencil = u8;

} // verus!
