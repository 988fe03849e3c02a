//! RGBA rasters: the pixel, the image and its mathematical view.

use vstd::prelude::*;

verus! {

/// One RGBA sample, eight bits per channel. Alpha 0 is fully transparent,
/// alpha 255 fully opaque.
#[derive(Clone, Copy, Debug, PartialEq, Eq, Structural)]
pub struct Pixel {
    pub r: u8,
    pub g: u8,
    pub b: u8,
    pub a: u8,
}

/// The mathematical content of a raster: its dimensions and its pixels in
/// row-major order.
pub struct RasterView {
    pub width: nat,
    pub height: nat,
    pub pixels: Seq<Pixel>,
}

impl RasterView {
    /// There is exactly one pixel for each position of the grid.
    pub open spec fn wf(self) -> bool {
        self.pixels.len() == self.width * self.height
    }

    /// Both rasters have the same width and the same height.
    pub open spec fn same_shape(self, other: RasterView) -> bool {
        self.width == other.width && self.height == other.height
    }

    /// The pixel in column `x` of row `y`.
    pub open spec fn at(self, x: int, y: int) -> Pixel
        recommends
            0 <= x < self.width,
            0 <= y < self.height,
    {
        self.pixels[y * self.width + x]
    }
}

/// The pixels that a buffer of interleaved RGBA bytes holds. Trailing bytes
/// that do not make up a whole pixel are not part of it.
pub open spec fn pixels_of_bytes(bytes: Seq<u8>) -> Seq<Pixel> {
    Seq::new(
        (bytes.len() / 4) as nat,
        |i: int|
            Pixel { r: bytes[4 * i], g: bytes[4 * i + 1], b: bytes[4 * i + 2], a: bytes[4 * i + 3] },
    )
}

/// The channel of `p` that is stored at offset `c` of its four bytes.
pub open spec fn channel(p: Pixel, c: int) -> u8 {
    if c == 0 {
        p.r
    } else if c == 1 {
        p.g
    } else if c == 2 {
        p.b
    } else {
        p.a
    }
}

/// The interleaved RGBA bytes of a sequence of pixels.
pub open spec fn bytes_of_pixels(pixels: Seq<Pixel>) -> Seq<u8> {
    Seq::new(4 * pixels.len(), |j: int| channel(pixels[j / 4], j % 4))
}

/// Packing pixels into bytes and reading them back gives the same pixels.
pub proof fn lemma_pixels_of_bytes_of_pixels(pixels: Seq<Pixel>)
    ensures
        pixels_of_bytes(bytes_of_pixels(pixels)) == pixels,
{
    let bytes = bytes_of_pixels(pixels);
    assert(bytes.len() / 4 == pixels.len());
    assert forall|i: int| 0 <= i < pixels.len() implies pixels_of_bytes(bytes)[i] == pixels[i] by {
        assert((4 * i) / 4 == i && (4 * i) % 4 == 0);
        assert((4 * i + 1) / 4 == i && (4 * i + 1) % 4 == 1);
        assert((4 * i + 2) / 4 == i && (4 * i + 2) % 4 == 2);
        assert((4 * i + 3) / 4 == i && (4 * i + 3) % 4 == 3);
    }
    assert(pixels_of_bytes(bytes) =~= pixels);
}

/// A rectangular grid of RGBA pixels.
#[derive(Debug)]
pub struct RasterImage {
    width: u32,
    height: u32,
    pixels: Vec<Pixel>,
}

impl View for RasterImage {
    type V = RasterView;

    closed spec fn view(&self) -> RasterView {
        RasterView { width: self.width as nat, height: self.height as nat, pixels: self.pixels@ }
    }
}

impl Clone for RasterImage {
    fn clone(&self) -> (out: Self)
        ensures
            out@ == self@,
    {
        proof {
            use_type_invariant(self);
        }
        let pixels = self.pixels.clone();
        assert(pixels@ =~= self.pixels@);
        RasterImage { width: self.width, height: self.height, pixels }
    }
}

impl RasterImage {
    #[verifier::type_invariant]
    closed spec fn inv(&self) -> bool {
        self.pixels@.len() == self.width * self.height
    }

    /// Builds a raster from interleaved RGBA bytes in row-major order.
    ///
    /// The buffer must hold exactly four bytes for each pixel of the grid;
    /// any other length is refused.
    pub fn from_raw(width: u32, height: u32, bytes: Vec<u8>) -> (r: Option<RasterImage>)
        ensures
            r is Some <==> bytes@.len() == 4 * width * height,
            r matches Some(img) ==> img@ == (RasterView {
                width: width as nat,
                height: height as nat,
                pixels: pixels_of_bytes(bytes@),
            }),
    {
        assert((width as u128) * (height as u128) <= 0xffff_ffffu128 * 0xffff_ffffu128)
            by (nonlinear_arith)
            requires
                width <= 0xffff_ffffu32,
                height <= 0xffff_ffffu32,
        ;
        let cells: u128 = (width as u128) * (height as u128);
        assert(4 * cells == 4 * width * height) by (nonlinear_arith)
            requires
                cells == width * height,
        ;
        if bytes.len() as u128 != 4 * cells {
            return None;
        }
        let count: usize = bytes.len() / 4;
        let mut pixels: Vec<Pixel> = Vec::new();
        let mut i: usize = 0;
        while i < count
            invariant
                i <= count,
                bytes@.len() == 4 * count,
                4 * count <= usize::MAX,
                pixels@.len() == i,
                forall|k: int| 0 <= k < i ==> pixels@[k] == pixels_of_bytes(bytes@)[k],
            decreases count - i,
        {
            let p = Pixel {
                r: bytes[4 * i],
                g: bytes[4 * i + 1],
                b: bytes[4 * i + 2],
                a: bytes[4 * i + 3],
            };
            pixels.push(p);
            i = i + 1;
        }
        assert(pixels@ =~= pixels_of_bytes(bytes@));
        Some(RasterImage { width, height, pixels })
    }

    /// The interleaved RGBA bytes of the raster, row by row.
    pub fn to_raw(&self) -> (bytes: Vec<u8>)
        ensures
            bytes@ == bytes_of_pixels(self@.pixels),
            bytes@.len() == 4 * self@.width * self@.height,
    {
        proof {
            use_type_invariant(self);
        }
        let count: usize = self.pixels.len();
        let mut bytes: Vec<u8> = Vec::new();
        let mut i: usize = 0;
        while i < count
            invariant
                i <= count,
                count == self.pixels@.len(),
                bytes@.len() == 4 * i,
                forall|j: int| 0 <= j < 4 * i ==> bytes@[j] == bytes_of_pixels(self.pixels@)[j],
            decreases count - i,
        {
            let p = self.pixels[i];
            bytes.push(p.r);
            bytes.push(p.g);
            bytes.push(p.b);
            bytes.push(p.a);
            i = i + 1;
        }
        assert(bytes@ =~= bytes_of_pixels(self.pixels@));
        assert(4 * (self.width * self.height) == 4 * self.width * self.height) by (nonlinear_arith);
        bytes
    }

    /// The number of columns.
    pub fn width(&self) -> (w: u32)
        ensures
            w == self@.width,
    {
        self.width
    }

    /// The number of rows.
    pub fn height(&self) -> (h: u32)
        ensures
            h == self@.height,
    {
        self.height
    }

    /// The number of pixels, which is the width times the height.
    pub fn pixel_count(&self) -> (n: usize)
        ensures
            n == self@.pixels.len(),
            self@.wf(),
    {
        proof {
            use_type_invariant(self);
        }
        self.pixels.len()
    }

    /// The pixel at position `i` in row-major order.
    pub fn get(&self, i: usize) -> (p: Pixel)
        requires
            i < self@.pixels.len(),
        ensures
            p == self@.pixels[i as int],
    {
        self.pixels[i]
    }

    /// The pixel in column `x` of row `y`.
    pub fn get_pixel(&self, x: u32, y: u32) -> (p: Pixel)
        requires
            x < self@.width,
            y < self@.height,
        ensures
            p == self@.at(x as int, y as int),
    {
        proof {
            use_type_invariant(self);
            lemma_position_in_range(x as int, y as int, self.width as int, self.height as int);
        }
        let count: usize = self.pixels.len();
        assert(y * self.width + x < count);
        let i: usize = y as usize * self.width as usize + x as usize;
        self.pixels[i]
    }

    /// Builds a raster from its pixels in row-major order. There must be
    /// exactly one pixel for each position of the grid; any other number is
    /// refused.
    pub fn from_pixels(width: u32, height: u32, pixels: Vec<Pixel>) -> (r: Option<RasterImage>)
        ensures
            r is Some <==> pixels@.len() == width * height,
            r matches Some(img) ==> img@ == (RasterView {
                width: width as nat,
                height: height as nat,
                pixels: pixels@,
            }),
    {
        assert((width as u128) * (height as u128) <= 0xffff_ffffu128 * 0xffff_ffffu128)
            by (nonlinear_arith)
            requires
                width <= 0xffff_ffffu32,
                height <= 0xffff_ffffu32,
        ;
        if pixels.len() as u128 == (width as u128) * (height as u128) {
            Some(RasterImage { width, height, pixels })
        } else {
            None
        }
    }

    /// The raster with the given dimensions and pixels.
    pub(crate) fn assemble(width: u32, height: u32, pixels: Vec<Pixel>) -> (img: RasterImage)
        requires
            pixels@.len() == width * height,
        ensures
            img@ == (RasterView { width: width as nat, height: height as nat, pixels: pixels@ }),
    {
        RasterImage { width, height, pixels }
    }

    /// Gives up the raster for its pixels in row-major order.
    pub fn into_pixels(self) -> (pixels: Vec<Pixel>)
        ensures
            pixels@ == self@.pixels,
            self@.wf(),
    {
        proof {
            use_type_invariant(&self);
        }
        self.pixels
    }
}

/// Position `(x, y)` of a `width` by `height` grid lies inside its row-major
/// sequence.
pub proof fn lemma_position_in_range(x: int, y: int, width: int, height: int)
    requires
        0 <= x < width,
        0 <= y < height,
    ensures
        0 <= y * width <= y * width + x < width * height,
{
    assert(y * width + x < width * height) by (nonlinear_arith)
        requires
            0 <= x < width,
            0 <= y < height,
    {
        assert((y + 1) * width <= height * width);
    }
    assert(0 <= y * width) by (nonlinear_arith)
        requires
            0 <= y,
            0 <= width,
    ;
}

} // verus!
