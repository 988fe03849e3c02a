//! Merging a rebuilt mask into the upscaled picture.

use crate::policy::CompositingPolicy;
use crate::raster::{Pixel, RasterImage, RasterView};
use vstd::prelude::*;

verus! {

/// Below this alpha the picture's own pixel counts as mostly transparent and
/// is not trusted.
pub const TRUSTED_ALPHA: u8 = 200;

/// The merge of one pixel of the picture with the pixel of the mask at the
/// same position.
pub open spec fn composited_pixel(policy: CompositingPolicy, picture: Pixel, mask: Pixel) -> Pixel {
    match policy {
        CompositingPolicy::Simple => Pixel { a: mask.a, ..picture },
        CompositingPolicy::Guarded => if picture.a < TRUSTED_ALPHA {
            mask
        } else if picture.a < mask.a {
            Pixel { a: mask.a, ..picture }
        } else {
            picture
        },
    }
}

/// The picture with every pixel merged with the mask's pixel at the same
/// position.
pub open spec fn composited(
    picture: RasterView,
    mask: RasterView,
    policy: CompositingPolicy,
) -> RasterView
    recommends
        picture.same_shape(mask),
{
    RasterView {
        pixels: Seq::new(
            picture.pixels.len(),
            |i: int| composited_pixel(policy, picture.pixels[i], mask.pixels[i]),
        ),
        ..picture
    }
}

fn composite_pixel(policy: CompositingPolicy, picture: Pixel, mask: Pixel) -> (out: Pixel)
    ensures
        out == composited_pixel(policy, picture, mask),
{
    match policy {
        CompositingPolicy::Simple => Pixel { r: picture.r, g: picture.g, b: picture.b, a: mask.a },
        CompositingPolicy::Guarded => {
            if picture.a < TRUSTED_ALPHA {
                mask
            } else if picture.a < mask.a {
                Pixel { r: picture.r, g: picture.g, b: picture.b, a: mask.a }
            } else {
                picture
            }
        },
    }
}

/// Merges `mask` into `upscaled`, pixel by pixel.
///
/// Under the simple policy the alpha of the picture is overwritten with the
/// alpha of the mask. Under the guarded policy a pixel whose own alpha is
/// below 200 is replaced by the mask's pixel, colour and alpha; any other
/// pixel has its alpha raised to the mask's where the mask's is higher, and
/// is kept as it is where not.
pub fn composite(upscaled: RasterImage, mask: &RasterImage, policy: CompositingPolicy) -> (out:
    RasterImage)
    requires
        upscaled@.same_shape(mask@),
    ensures
        out@ == composited(upscaled@, mask@, policy),
{
    let width: u32 = upscaled.width();
    let height: u32 = upscaled.height();
    let ghost before = upscaled@;
    let count: usize = mask.pixel_count();
    let mut pixels = upscaled.into_pixels();
    let mut i: usize = 0;
    while i < count
        invariant
            i <= count,
            count == before.pixels.len(),
            count == mask@.pixels.len(),
            pixels@.len() == count,
            forall|k: int|
                0 <= k < i ==> pixels@[k] == composited_pixel(
                    policy,
                    before.pixels[k],
                    mask@.pixels[k],
                ),
            forall|k: int| i <= k < count ==> pixels@[k] == before.pixels[k],
        decreases count - i,
    {
        let merged = composite_pixel(policy, pixels[i], mask.get(i));
        pixels.set(i, merged);
        i = i + 1;
    }
    assert(pixels@ =~= composited(before, mask@, policy).pixels);
    RasterImage::assemble(width, height, pixels)
}

/// Under the simple policy the merged picture has the colour of the picture
/// and the alpha of the mask, at every pixel.
pub proof fn lemma_simple_composite(picture: RasterView, mask: RasterView)
    requires
        picture.wf(),
        mask.wf(),
        picture.same_shape(mask),
    ensures
        composited(picture, mask, CompositingPolicy::Simple).same_shape(picture),
        composited(picture, mask, CompositingPolicy::Simple).wf(),
        forall|i: int|
            #![trigger composited(picture, mask, CompositingPolicy::Simple).pixels[i]]
            0 <= i < picture.pixels.len() ==> {
                let out = composited(picture, mask, CompositingPolicy::Simple).pixels[i];
                &&& out.r == picture.pixels[i].r
                &&& out.g == picture.pixels[i].g
                &&& out.b == picture.pixels[i].b
                &&& out.a == mask.pixels[i].a
            },
{
}

/// Under the guarded policy the merged alpha is never below the smaller of
/// the picture's alpha and the mask's, and a pixel whose alpha is at least
/// 200 and at least the mask's comes out unchanged.
pub proof fn lemma_guarded_composite_monotone(picture: RasterView, mask: RasterView)
    requires
        picture.wf(),
        mask.wf(),
        picture.same_shape(mask),
    ensures
        composited(picture, mask, CompositingPolicy::Guarded).same_shape(picture),
        composited(picture, mask, CompositingPolicy::Guarded).wf(),
        forall|i: int|
            #![trigger composited(picture, mask, CompositingPolicy::Guarded).pixels[i]]
            0 <= i < picture.pixels.len() ==> {
                let out = composited(picture, mask, CompositingPolicy::Guarded).pixels[i];
                let p = picture.pixels[i];
                let m = mask.pixels[i];
                &&& out.a >= (if p.a <= m.a {
                    p.a
                } else {
                    m.a
                })
                &&& p.a >= TRUSTED_ALPHA && p.a >= m.a ==> out == p
            },
{
}

/// Under the guarded policy the merged alpha is never below the mask's:
/// the merge only ever shows more of the picture than the mask does.
pub proof fn lemma_guarded_composite_covers_mask(picture: RasterView, mask: RasterView)
    requires
        picture.wf(),
        mask.wf(),
        picture.same_shape(mask),
    ensures
        forall|i: int|
            #![trigger composited(picture, mask, CompositingPolicy::Guarded).pixels[i]]
            0 <= i < picture.pixels.len() ==> composited(
                picture,
                mask,
                CompositingPolicy::Guarded,
            ).pixels[i].a >= mask.pixels[i].a,
{
}

} // verus!
