//! Capture targets: the logical source a caller names and the rectangle it
//! resolves to.

use vstd::prelude::*;

verus! {

/// A rectangle of the display area: origin and size. The origin may be
/// negative, since monitors can sit left of or above the primary one.
#[derive(Debug, Clone, Copy, PartialEq, Eq, Structural)]
pub struct Geometry {
    pub x: i32,
    pub y: i32,
    pub width: u32,
    pub height: u32,
}

/// Capture either the whole desktop, the output of a specific monitor, a
/// window, or a region of the total display area.
#[derive(Debug, Clone, Copy, PartialEq, Eq, Structural)]
pub enum CaptureSource {
    Region { x: i32, y: i32, width: u32, height: u32 },
    Monitor(usize),
    Desktop,
    Window(u64),
}

impl Geometry {
    /// Number of pixels in the rectangle.
    pub open spec fn area(self) -> nat {
        (self.width * self.height) as nat
    }

    /// A geometry that a display server reported has a positive width and
    /// height.
    pub open spec fn is_nonempty(self) -> bool {
        self.width > 0 && self.height > 0
    }

    /// Number of pixels in the rectangle.
    pub fn pixel_count(&self) -> (n: u64)
        ensures
            n == self.area(),
    {
        proof {
            assert(self.width * self.height <= 0xFFFF_FFFF * 0xFFFF_FFFF) by (nonlinear_arith)
                requires
                    self.width <= 0xFFFF_FFFF,
                    self.height <= 0xFFFF_FFFF,
            ;
        }
        (self.width as u64) * (self.height as u64)
    }

    /// Whether the rectangle holds no pixel.
    pub fn is_empty(&self) -> (empty: bool)
        ensures
            empty == !self.is_nonempty(),
    {
        self.width == 0 || self.height == 0
    }
}

} // verus!
