//! The software raster target: an addressable 2D pixel buffer that drawing
//! renders into, stored as premultiplied RGBA.
//!
//! A plain bitmap cannot be resized in place, so `resize` reallocates at the
//! new size. The buffer's memory is handed to a platform presenter only
//! through `pixel_view`, which checks up front that the presenter expects the
//! target's packed pixel layout and returns a typed error instead of
//! reinterpreting memory blindly.

use vstd::prelude::*;
use crate::color::{Color8, premul_wf, premultiply, spec_premultiply};

verus! {

/// Largest width or height of a raster target.
pub const MAX_TARGET_SIDE: usize = 16384;

/// Size of one packed pixel of this target, in bytes.
pub const RASTER_BYTES_PER_PIXEL: usize = 4;

/// The abstract state of a raster target: its size and its pixels in
/// row-major order.
pub struct RasterView {
    pub width: int,
    pub height: int,
    pub pixels: Seq<Color8>,
}

/// A freshly allocated target of size w * h: every pixel transparent black.
pub open spec fn spec_blank(w: int, h: int) -> RasterView {
    RasterView { width: w, height: h, pixels: Seq::new((w * h) as nat, |i: int| (Color8 { r: 0u8, g: 0u8, b: 0u8, a: 0u8 })) }
}

/// A raster target after a reallocation at size w * h: nothing of the old
/// state survives, every pixel is transparent black.
pub open spec fn spec_resize(v: RasterView, w: int, h: int) -> RasterView {
    spec_blank(w, h)
}

/// A raster target after a clear: same size, every pixel holds the clear
/// color converted to premultiplied alpha.
pub open spec fn spec_clear(v: RasterView, color: Color8) -> RasterView {
    RasterView { width: v.width, height: v.height, pixels: Seq::new(v.pixels.len(), |i: int| spec_premultiply(color)) }
}

/// One premultiplied pixel packed into 32 bits, low byte first:
/// r | g << 8 | b << 16 | a << 24, the memory order of the 4-byte pixels.
pub open spec fn spec_pack_pixel(c: Color8) -> u32 {
    (c.r + c.g * 0x100 + c.b * 0x10000 + c.a * 0x1000000) as u32
}

/// A fatal configuration error: the presenter's expected pixel layout does
/// not match the target's packed 4-byte pixels.
#[derive(Clone, Copy, PartialEq, Eq, Structural, Debug)]
pub enum PixelViewError {
    BytesPerPixelMismatch,
}

/// A software raster target.
pub struct RasterTarget {
    width: usize,
    height: usize,
    pixels: Vec<Color8>,
}

impl View for RasterTarget {
    type V = RasterView;

    closed spec fn view(&self) -> RasterView {
        RasterView { width: self.width as int, height: self.height as int, pixels: self.pixels@ }
    }
}

impl RasterTarget {
    /// Well-formedness: the buffer has exactly width * height premultiplied
    /// pixels and the size is positive and within the side limit.
    pub open spec fn wf(self) -> bool {
        &&& self@.pixels.len() == self@.width * self@.height
        &&& 0 < self@.width <= MAX_TARGET_SIDE
        &&& 0 < self@.height <= MAX_TARGET_SIDE
        &&& forall|i: int| 0 <= i < self@.pixels.len() ==> premul_wf(#[trigger] self@.pixels[i])
    }

    pub fn width(&self) -> (w: usize)
        ensures
            w == self@.width,
    {
        self.width
    }

    pub fn height(&self) -> (h: usize)
        ensures
            h == self@.height,
    {
        self.height
    }

    /// Allocates a target of the given size, all pixels transparent black.
    pub fn new(width: usize, height: usize) -> (t: RasterTarget)
        requires
            0 < width <= MAX_TARGET_SIDE,
            0 < height <= MAX_TARGET_SIDE,
        ensures
            t@ == spec_blank(width as int, height as int),
            t.wf(),
    {
        proof {
            assert(0 < width * height <= MAX_TARGET_SIDE * MAX_TARGET_SIDE) by (nonlinear_arith)
                requires
                    0 < width <= MAX_TARGET_SIDE,
                    0 < height <= MAX_TARGET_SIDE;
        }
        let n = width * height;
        let mut pixels: Vec<Color8> = Vec::with_capacity(n);
        let mut i: usize = 0;
        while i < n
            invariant
                0 <= i <= n,
                pixels@.len() == i,
                forall|k: int| 0 <= k < i ==> pixels@[k] == (Color8 { r: 0u8, g: 0u8, b: 0u8, a: 0u8 }),
            decreases n - i,
        {
            pixels.push(Color8 { r: 0, g: 0, b: 0, a: 0 });
            i = i + 1;
        }
        let t = RasterTarget { width, height, pixels };
        proof {
            assert(t@.pixels =~= spec_blank(width as int, height as int).pixels);
        }
        t
    }

    /// Reallocates the bitmap at the new size; the old contents are
    /// discarded, as an in-place resize of a plain bitmap is not possible.
    pub fn resize(&mut self, width: usize, height: usize)
        requires
            0 < width <= MAX_TARGET_SIDE,
            0 < height <= MAX_TARGET_SIDE,
        ensures
            final(self)@ == spec_resize(old(self)@, width as int, height as int),
            final(self).wf(),
    {
        *self = RasterTarget::new(width, height);
    }

    /// Paints the full area with the clear color, converted to the target's
    /// premultiplied-alpha color model.
    pub fn clear(&mut self, color: Color8)
        requires
            old(self).wf(),
        ensures
            final(self)@ == spec_clear(old(self)@, color),
            final(self).wf(),
    {
        let p = premultiply(color);
        let n = self.pixels.len();
        let mut pixels: Vec<Color8> = Vec::with_capacity(n);
        let mut i: usize = 0;
        while i < n
            invariant
                0 <= i <= n,
                pixels@.len() == i,
                p == spec_premultiply(color),
                premul_wf(p),
                forall|k: int| 0 <= k < i ==> pixels@[k] == p,
            decreases n - i,
        {
            pixels.push(p);
            i = i + 1;
        }
        self.pixels = pixels;
        proof {
            assert(self@.pixels =~= spec_clear(old(self)@, color).pixels);
        }
    }

    /// The pixel at column x, row y.
    pub fn pixel(&self, x: usize, y: usize) -> (c: Color8)
        requires
            self.wf(),
            x < self@.width,
            y < self@.height,
        ensures
            c == self@.pixels[y * self@.width + x],
    {
        proof {
            assert(y * self@.width + x < self@.width * self@.height) by (nonlinear_arith)
                requires
                    0 <= x < self@.width,
                    0 <= y < self@.height,
                    self@.width <= MAX_TARGET_SIDE,
                    self@.height <= MAX_TARGET_SIDE;
            assert(self@.width * self@.height <= MAX_TARGET_SIDE * MAX_TARGET_SIDE) by (nonlinear_arith)
                requires
                    0 < self@.width <= MAX_TARGET_SIDE,
                    0 < self@.height <= MAX_TARGET_SIDE;
        }
        self.pixels[y * self.width + x]
    }

    /// The pixel at row-major index i.
    pub fn pixel_at(&self, i: usize) -> (c: Color8)
        requires
            self.wf(),
            i < self@.pixels.len(),
        ensures
            c == self@.pixels[i as int],
    {
        self.pixels[i]
    }

    /// Replaces the whole pixel buffer; the rasterizer paints by handing a
    /// freshly composited buffer of the same size back to the target.
    pub fn replace_pixels(&mut self, pixels: Vec<Color8>)
        requires
            old(self).wf(),
            pixels@.len() == old(self)@.pixels.len(),
            forall|i: int| 0 <= i < pixels@.len() ==> premul_wf(#[trigger] pixels@[i]),
        ensures
            final(self)@.width == old(self)@.width,
            final(self)@.height == old(self)@.height,
            final(self)@.pixels == pixels@,
            final(self).wf(),
    {
        self.pixels = pixels;
    }

    /// The pixel memory as packed 32-bit values for a presenter that expects
    /// `expected_bytes_per_pixel`-byte packed pixels. The layout is checked
    /// up front: a mismatch is a fatal configuration error, never a blind
    /// reinterpretation.
    pub fn pixel_view(&self, expected_bytes_per_pixel: usize) -> (r: Result<Vec<u32>, PixelViewError>)
        requires
            self.wf(),
        ensures
            match r {
                Ok(packed) => {
                    &&& expected_bytes_per_pixel == RASTER_BYTES_PER_PIXEL
                    &&& packed@.len() == self@.pixels.len()
                    &&& forall|i: int|
                        0 <= i < packed@.len() ==> packed@[i] == spec_pack_pixel(
                            #[trigger] self@.pixels[i],
                        )
                },
                Err(PixelViewError::BytesPerPixelMismatch) => expected_bytes_per_pixel
                    != RASTER_BYTES_PER_PIXEL,
            },
    {
        if expected_bytes_per_pixel != RASTER_BYTES_PER_PIXEL {
            return Err(PixelViewError::BytesPerPixelMismatch);
        }
        let n = self.pixels.len();
        let mut packed: Vec<u32> = Vec::with_capacity(n);
        let mut i: usize = 0;
        while i < n
            invariant
                0 <= i <= n,
                packed@.len() == i,
                n == self@.pixels.len(),
                forall|k: int| 0 <= k < i ==> packed@[k] == spec_pack_pixel(#[trigger] self@.pixels[k]),
            decreases n - i,
        {
            let c = self.pixels[i];
            let w: u32 = c.r as u32 + (c.g as u32) * 0x100 + (c.b as u32) * 0x10000 + (c.a as u32)
                * 0x1000000;
            packed.push(w);
            i = i + 1;
        }
        Ok(packed)
    }
}

/// Law: resizing is idempotent; a second resize at the same size leaves
/// exactly the state of the first, so the target's dimensions equal the
/// requested size after either one or two calls.
pub proof fn lemma_resize_idempotent(v: RasterView, w: int, h: int)
    ensures
        spec_resize(spec_resize(v, w, h), w, h) == spec_resize(v, w, h),
        spec_resize(v, w, h).width == w,
        spec_resize(v, w, h).height == h,
{
    assert(spec_resize(spec_resize(v, w, h), w, h).pixels =~= spec_resize(v, w, h).pixels);
}

} // verus!
