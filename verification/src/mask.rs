//! The two point operations of the mask pipeline: contrast and threshold.

use crate::raster::{Pixel, RasterImage, RasterView};
use vstd::prelude::*;

verus! {

/// Alpha values below the cutoff become fully transparent, all others fully
/// opaque.
pub const ALPHA_CUTOFF: u8 = 128;

/// The value around which contrast is stretched.
pub const MIDPOINT: u8 = 128;

/// The factor by which contrast is stretched.
pub const CONTRAST_FACTOR: u8 = 2;

/// An alpha value driven to one of the two extremes.
pub open spec fn binarized(a: u8) -> u8 {
    if a < ALPHA_CUTOFF {
        0
    } else {
        255
    }
}

/// The pixel with its alpha binarized and its colour kept.
pub open spec fn thresholded_pixel(p: Pixel) -> Pixel {
    Pixel { a: binarized(p.a), ..p }
}

/// The raster with the alpha of every pixel binarized.
pub open spec fn thresholded(v: RasterView) -> RasterView {
    RasterView { pixels: Seq::new(v.pixels.len(), |i: int| thresholded_pixel(v.pixels[i])), ..v }
}

/// Every alpha value of the raster is 0 or 255.
pub open spec fn binary(v: RasterView) -> bool {
    forall|i: int|
        0 <= i < v.pixels.len() ==> (#[trigger] v.pixels[i]).a == 0 || v.pixels[i].a == 255
}

/// A channel value moved away from the midpoint by the contrast factor and
/// held inside the range of a byte.
pub open spec fn stretched(c: u8) -> u8 {
    let v = MIDPOINT + CONTRAST_FACTOR * (c - MIDPOINT);
    if v < 0 {
        0
    } else if v > 255 {
        255
    } else {
        v as u8
    }
}

/// The pixel with each of its four channels stretched.
pub open spec fn contrasted_pixel(p: Pixel) -> Pixel {
    Pixel { r: stretched(p.r), g: stretched(p.g), b: stretched(p.b), a: stretched(p.a) }
}

/// The raster with the contrast of every pixel stretched.
pub open spec fn contrasted(v: RasterView) -> RasterView {
    RasterView { pixels: Seq::new(v.pixels.len(), |i: int| contrasted_pixel(v.pixels[i])), ..v }
}

fn binarize(a: u8) -> (r: u8)
    ensures
        r == binarized(a),
{
    if a < ALPHA_CUTOFF {
        0
    } else {
        255
    }
}

fn stretch(c: u8) -> (r: u8)
    ensures
        r == stretched(c),
{
    let v: i32 = MIDPOINT as i32 + CONTRAST_FACTOR as i32 * (c as i32 - MIDPOINT as i32);
    if v < 0 {
        0
    } else if v > 255 {
        255
    } else {
        v as u8
    }
}

/// Drives the alpha of every pixel to 0 or 255: below 128 to 0, from 128 on
/// to 255. Colour and dimensions stay as they are.
pub fn threshold(mask: RasterImage) -> (out: RasterImage)
    ensures
        out@ == thresholded(mask@),
{
    let width: u32 = mask.width();
    let height: u32 = mask.height();
    let ghost before = mask@;
    let mut pixels = mask.into_pixels();
    let count: usize = pixels.len();
    let mut i: usize = 0;
    while i < count
        invariant
            i <= count,
            count == before.pixels.len(),
            pixels@.len() == count,
            forall|k: int| 0 <= k < i ==> pixels@[k] == thresholded_pixel(before.pixels[k]),
            forall|k: int| i <= k < count ==> pixels@[k] == before.pixels[k],
        decreases count - i,
    {
        let p = pixels[i];
        pixels.set(i, Pixel { r: p.r, g: p.g, b: p.b, a: binarize(p.a) });
        i = i + 1;
    }
    assert(pixels@ =~= thresholded(before).pixels);
    RasterImage::assemble(width, height, pixels)
}

/// Doubles the distance of every channel from the midpoint 128, held inside
/// 0 to 255. Dimensions stay as they are.
pub fn contrast(mask: RasterImage) -> (out: RasterImage)
    ensures
        out@ == contrasted(mask@),
{
    let width: u32 = mask.width();
    let height: u32 = mask.height();
    let ghost before = mask@;
    let mut pixels = mask.into_pixels();
    let count: usize = pixels.len();
    let mut i: usize = 0;
    while i < count
        invariant
            i <= count,
            count == before.pixels.len(),
            pixels@.len() == count,
            forall|k: int| 0 <= k < i ==> pixels@[k] == contrasted_pixel(before.pixels[k]),
            forall|k: int| i <= k < count ==> pixels@[k] == before.pixels[k],
        decreases count - i,
    {
        let p = pixels[i];
        pixels.set(i, Pixel { r: stretch(p.r), g: stretch(p.g), b: stretch(p.b), a: stretch(p.a) });
        i = i + 1;
    }
    assert(pixels@ =~= contrasted(before).pixels);
    RasterImage::assemble(width, height, pixels)
}

/// After the threshold every alpha value is 0 or 255, whatever the raster
/// held before.
pub proof fn lemma_thresholded_is_binary(v: RasterView)
    ensures
        binary(thresholded(v)),
        thresholded(v).same_shape(v),
        thresholded(v).pixels.len() == v.pixels.len(),
{
}

} // verus!
