//! Panel geometry and dirty regions.
//!
//! The panel is a fixed 240x240 grid of 16-bit pixels.  A dirty region is a
//! rectangle of the pixel buffer that changed since the last update; it must
//! lie inside the panel and span at least one pixel in each direction.

use vstd::prelude::*;

verus! {

/// Width of the panel this adapter drives, in pixels.
pub const PANEL_WIDTH: usize = 240;

/// Height of the panel, in pixels.
pub const PANEL_HEIGHT: usize = 240;

/// Fixed size of a display, in pixels.
pub struct DisplayGeometry {
    pub width: usize,
    pub height: usize,
}

impl DisplayGeometry {
    /// A geometry is well formed when it spans at least one pixel in each
    /// direction and does not exceed the panel this adapter is built for.
    pub open spec fn wf(&self) -> bool {
        &&& 1 <= self.width <= PANEL_WIDTH
        &&& 1 <= self.height <= PANEL_HEIGHT
    }

    /// The geometry of the panel itself.
    pub fn panel() -> (g: DisplayGeometry)
        ensures
            g.width == PANEL_WIDTH,
            g.height == PANEL_HEIGHT,
            g.wf(),
    {
        DisplayGeometry { width: PANEL_WIDTH, height: PANEL_HEIGHT }
    }

    /// Number of pixels of a full frame, row-major.
    pub open spec fn spec_pixel_count(&self) -> int {
        self.width * self.height
    }

    /// Number of pixels of a full frame.
    pub fn pixel_count(&self) -> (n: usize)
        requires
            self.wf(),
        ensures
            n == self.spec_pixel_count(),
    {
        proof {
            lemma_bounded_mul(self.width as int, self.height as int, PANEL_WIDTH as int,
                PANEL_HEIGHT as int);
        }
        self.width * self.height
    }
}

/// Top-left corner of a dirty region, in pixels.
pub struct PixelPosition {
    pub x: usize,
    pub y: usize,
}

/// Extent of a dirty region, in pixels.
pub struct PixelSize {
    pub width: usize,
    pub height: usize,
}

/// A dirty region lies inside the display and spans at least one pixel in
/// each direction.
pub open spec fn region_in_bounds(origin: PixelPosition, size: PixelSize,
    geometry: DisplayGeometry) -> bool {
    &&& 1 <= size.width
    &&& 1 <= size.height
    &&& origin.x + size.width <= geometry.width
    &&& origin.y + size.height <= geometry.height
}

/// The product of two values stays below the product of their bounds.
pub proof fn lemma_bounded_mul(a: int, b: int, ca: int, cb: int)
    requires
        0 <= a <= ca,
        0 <= b <= cb,
    ensures
        a * b <= ca * cb,
{
    assert(a * b <= ca * b) by (nonlinear_arith)
        requires
            0 <= a <= ca,
            0 <= b,
    ;
    assert(ca * b <= ca * cb) by (nonlinear_arith)
        requires
            0 <= b <= cb,
            0 <= ca,
    ;
}

} // verus!
