//! The test that gates the repair: does a picture have any transparency?

use crate::raster::{RasterImage, RasterView};
use vstd::prelude::*;

verus! {

/// The alpha value of a fully opaque pixel.
pub const OPAQUE: u8 = 255;

/// Every pixel of the raster is fully opaque. An empty raster is.
pub open spec fn fully_opaque(v: RasterView) -> bool {
    forall|i: int| 0 <= i < v.pixels.len() ==> (#[trigger] v.pixels[i]).a == OPAQUE
}

/// Tells whether every pixel of `original` has alpha 255. The scan stops at
/// the first pixel that has not.
pub fn is_fully_opaque(original: &RasterImage) -> (r: bool)
    ensures
        r == fully_opaque(original@),
{
    let count: usize = original.pixel_count();
    let mut i: usize = 0;
    while i < count
        invariant
            i <= count,
            count == original@.pixels.len(),
            forall|k: int| 0 <= k < i ==> (#[trigger] original@.pixels[k]).a == OPAQUE,
        decreases count - i,
    {
        if original.get(i).a != OPAQUE {
            return false;
        }
        i = i + 1;
    }
    true
}

} // verus!
