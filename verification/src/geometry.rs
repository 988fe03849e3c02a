//! Control points of the warps that contract and expand a mask.

use vstd::prelude::*;

verus! {

/// A position in pixel units. Coordinates may lie outside the raster.
#[derive(Clone, Copy, Debug, PartialEq, Eq, Structural)]
pub struct Point {
    pub x: i64,
    pub y: i64,
}

/// Four control points, in the order of the corners of a raster: top left,
/// top right, bottom left, bottom right.
#[derive(Clone, Copy, Debug, PartialEq, Eq, Structural)]
pub struct Quad {
    pub top_left: Point,
    pub top_right: Point,
    pub bottom_left: Point,
    pub bottom_right: Point,
}

impl Quad {
    /// The rectangle has no width or no height, so that corners coincide.
    pub open spec fn flat(self) -> bool {
        self.top_left.x == self.top_right.x || self.top_left.y == self.bottom_left.y
    }
}

/// The corners of a `width` by `height` raster, each moved towards the
/// centre by `inset` pixels along both axes. A negative inset moves them
/// outwards; inset 0 gives the corners of the raster itself.
pub open spec fn frame(width: nat, height: nat, inset: int) -> Quad {
    Quad {
        top_left: Point { x: inset as i64, y: inset as i64 },
        top_right: Point { x: (width - inset) as i64, y: inset as i64 },
        bottom_left: Point { x: inset as i64, y: (height - inset) as i64 },
        bottom_right: Point { x: (width - inset) as i64, y: (height - inset) as i64 },
    }
}

/// No invertible projection maps the corners of the raster onto the inset
/// frame: one of the two rectangles is flat.
pub open spec fn warp_degenerate(width: nat, height: nat, inset: int) -> bool {
    frame(width, height, 0).flat() || frame(width, height, inset).flat()
}

/// The corners of a `width` by `height` raster moved inwards by `inset`.
pub fn inset_frame(width: u32, height: u32, inset: i32) -> (q: Quad)
    ensures
        q == frame(width as nat, height as nat, inset as int),
{
    let near: i64 = inset as i64;
    let right: i64 = width as i64 - inset as i64;
    let bottom: i64 = height as i64 - inset as i64;
    Quad {
        top_left: Point { x: near, y: near },
        top_right: Point { x: right, y: near },
        bottom_left: Point { x: near, y: bottom },
        bottom_right: Point { x: right, y: bottom },
    }
}

/// Tells whether the warp of a `width` by `height` raster onto its frame
/// inset by `inset` is degenerate.
pub fn is_warp_degenerate(width: u32, height: u32, inset: i32) -> (r: bool)
    ensures
        r == warp_degenerate(width as nat, height as nat, inset as int),
{
    let from = inset_frame(width, height, 0);
    let to = inset_frame(width, height, inset);
    from.top_left.x == from.top_right.x || from.top_left.y == from.bottom_left.y || to.top_left.x
        == to.top_right.x || to.top_left.y == to.bottom_left.y
}

/// A warp is degenerate exactly when the raster is empty or the inset takes
/// away the whole width or the whole height.
pub proof fn lemma_warp_degenerate(width: u32, height: u32, inset: i32)
    ensures
        warp_degenerate(width as nat, height as nat, inset as int) <==> (width == 0 || height == 0
            || width == 2 * inset || height == 2 * inset),
{
}

} // verus!
