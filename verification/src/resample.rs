//! Bringing a raster to another resolution.

use crate::raster::{Pixel, RasterImage, RasterView};
use vstd::prelude::*;

verus! {

/// The longest side, in pixels, between which a raster is resampled.
pub const MAX_SIDE: u32 = 1_048_576;

/// A resampling from `width` by `height` to `new_width` by `new_height` is
/// within what this machine and the resampling arithmetic can hold.
///
/// The result, of four bytes a pixel, must not be larger than a vector can
/// be. Where the raster is not empty and changes its dimensions, pixels are
/// resampled, and then two more things are asked: the intermediate raster of
/// the old width and the new height, with sixteen bytes a pixel, must not be
/// larger than a vector can be; and no side, old or new, may be longer than
/// [`MAX_SIDE`], so that positions along a side are exact enough in single
/// precision.
pub open spec fn resample_fits(width: nat, height: nat, new_width: nat, new_height: nat) -> bool {
    &&& 4 * new_width * new_height <= isize::MAX
    &&& width != 0 && height != 0 && (new_width != width || new_height != height) ==> {
        &&& 16 * width * new_height <= isize::MAX
        &&& width <= MAX_SIDE
        &&& height <= MAX_SIDE
        &&& new_width <= MAX_SIDE
        &&& new_height <= MAX_SIDE
    }
}

/// What is known of `out` when it is `source` resampled to `new_width` by
/// `new_height`: it has those dimensions; it is all zero where the source
/// is empty; it is the source where the dimensions do not change.
pub open spec fn resampling_of(
    source: RasterView,
    out: RasterView,
    new_width: nat,
    new_height: nat,
) -> bool {
    &&& out.wf()
    &&& out.width == new_width
    &&& out.height == new_height
    &&& source.width == 0 || source.height == 0 ==> forall|i: int|
        0 <= i < out.pixels.len() ==> #[trigger] out.pixels[i] == (Pixel { r: 0, g: 0, b: 0, a: 0 })
    &&& source.width != 0 && source.height != 0 && new_width == source.width && new_height
        == source.height ==> out == source
}

/// Tells whether a resampling from `width` by `height` to `new_width` by
/// `new_height` fits this machine.
pub fn can_resample(width: u32, height: u32, new_width: u32, new_height: u32) -> (r: bool)
    ensures
        r == resample_fits(width as nat, height as nat, new_width as nat, new_height as nat),
{
    let limit: u128 = isize::MAX as u128;
    assert((new_width as u128) * (new_height as u128) <= 0xffff_ffffu128 * 0xffff_ffffu128)
        by (nonlinear_arith)
        requires
            new_width <= 0xffff_ffffu32,
            new_height <= 0xffff_ffffu32,
    ;
    assert((width as u128) * (new_height as u128) <= 0xffff_ffffu128 * 0xffff_ffffu128)
        by (nonlinear_arith)
        requires
            width <= 0xffff_ffffu32,
            new_height <= 0xffff_ffffu32,
    ;
    let result_cells: u128 = (new_width as u128) * (new_height as u128);
    let transit_cells: u128 = (width as u128) * (new_height as u128);
    assert(4 * result_cells == 4 * new_width * new_height) by (nonlinear_arith)
        requires
            result_cells == new_width * new_height,
    ;
    assert(16 * transit_cells == 16 * width * new_height) by (nonlinear_arith)
        requires
            transit_cells == width * new_height,
    ;
    let unchanged: bool = new_width == width && new_height == height;
    let sides_fit: bool = width <= MAX_SIDE && height <= MAX_SIDE && new_width <= MAX_SIDE
        && new_height <= MAX_SIDE;
    4 * result_cells <= limit && (width == 0 || height == 0 || unchanged || (16 * transit_cells
        <= limit && sides_fit))
}

/// `image::imageops::resize` with the Lanczos filter of window 3, on
/// interleaved RGBA bytes.
///
/// The contract claims of it: the result has four bytes for each pixel of
/// the new grid; where the source has no pixels the result is all zero;
/// where the source has pixels and the dimensions do not change the result
/// is a copy of the source. Of the resampled values themselves it claims
/// nothing.
///
/// The requirement leaves out the inputs on which the function panics. It
/// panics where a buffer that it allocates is larger than a vector can be.
/// It also panics where the weights of a window add up to zero, since the
/// sample that comes of it is not a number. The centre of each window is
/// computed in single precision from the position of the output pixel and
/// the ratio of the sides. With no side longer than 2^20 that position is
/// exact and the centre is off by less than a quarter of a pixel; the
/// window then holds a sample within three quarters of a pixel of its
/// centre, where the kernel is well above what the negative lobes of the
/// other samples can take away. Where the source is empty or the
/// dimensions stay, the function resamples nothing.
#[verifier::external_body]
fn resize_lanczos3(bytes: Vec<u8>, width: u32, height: u32, new_width: u32, new_height: u32) -> (out:
    Vec<u8>)
    requires
        bytes@.len() == 4 * width * height,
        resample_fits(width as nat, height as nat, new_width as nat, new_height as nat),
    ensures
        out@.len() == 4 * new_width * new_height,
        width == 0 || height == 0 ==> forall|j: int| 0 <= j < out@.len() ==> out@[j] == 0,
        width != 0 && height != 0 && new_width == width && new_height == height ==> out@ == bytes@,
{
    let source = image::RgbaImage::from_raw(width, height, bytes).unwrap();
    let filter = image::imageops::FilterType::Lanczos3;
    image::imageops::resize(&source, new_width, new_height, filter).into_raw()
}

/// Resamples `source` to `new_width` by `new_height` with a Lanczos filter
/// of window 3.
pub fn resample(source: &RasterImage, new_width: u32, new_height: u32) -> (out: RasterImage)
    requires
        resample_fits(source@.width, source@.height, new_width as nat, new_height as nat),
    ensures
        resampling_of(source@, out@, new_width as nat, new_height as nat),
{
    let bytes = source.to_raw();
    let ghost before = bytes@;
    let resized = resize_lanczos3(bytes, source.width(), source.height(), new_width, new_height);
    let out = RasterImage::from_raw(new_width, new_height, resized).unwrap();
    proof {
        crate::raster::lemma_pixels_of_bytes_of_pixels(source@.pixels);
        assert(4 * (new_width * new_height) == 4 * new_width * new_height) by (nonlinear_arith);
        assert(out@.pixels.len() == new_width * new_height);
    }
    out
}

} // verus!
