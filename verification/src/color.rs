//! 8-bit RGBA colors and the compositing arithmetic of the raster targets.
//!
//! A raster target stores premultiplied-alpha pixels. A straight
//! (non-premultiplied) color is converted on the way in; the two blend modes
//! the rasterizer needs are plain source-over and a destination-in style
//! multiply used for glyph coverage masks.

use vstd::prelude::*;

verus! {

/// An 8-bit RGBA color. Whether the channels are straight or premultiplied
/// is decided by context: UI-facing values (vertex colors, the clear color)
/// are straight, raster-target pixels are premultiplied.
#[derive(Clone, Copy, PartialEq, Eq, Structural, Debug)]
pub struct Color8 {
    pub r: u8,
    pub g: u8,
    pub b: u8,
    pub a: u8,
}

/// Scaling of one channel by a 0..=255 factor: floor(c * m / 255).
pub open spec fn spec_scale8(c: int, m: int) -> int {
    c * m / 255
}

/// A premultiplied color is well formed when no channel exceeds its alpha.
pub open spec fn premul_wf(c: Color8) -> bool {
    c.r <= c.a && c.g <= c.a && c.b <= c.a
}

/// Conversion of a straight color to premultiplied alpha.
pub open spec fn spec_premultiply(c: Color8) -> Color8 {
    Color8 {
        r: spec_scale8(c.r as int, c.a as int) as u8,
        g: spec_scale8(c.g as int, c.a as int) as u8,
        b: spec_scale8(c.b as int, c.a as int) as u8,
        a: c.a,
    }
}

/// Source-over blending of premultiplied colors, per channel:
/// out = src + dst * (255 - src.a) / 255.
pub open spec fn spec_source_over(dst: Color8, src: Color8) -> Color8 {
    Color8 {
        r: (src.r + spec_scale8(dst.r as int, 255 - src.a)) as u8,
        g: (src.g + spec_scale8(dst.g as int, 255 - src.a)) as u8,
        b: (src.b + spec_scale8(dst.b as int, 255 - src.a)) as u8,
        a: (src.a + spec_scale8(dst.a as int, 255 - src.a)) as u8,
    }
}

/// Destination-in blending: the destination is kept, scaled by the source's
/// alpha; every channel, alpha included, is multiplied by cover / 255.
pub open spec fn spec_dest_in(dst: Color8, cover: int) -> Color8 {
    Color8 {
        r: spec_scale8(dst.r as int, cover) as u8,
        g: spec_scale8(dst.g as int, cover) as u8,
        b: spec_scale8(dst.b as int, cover) as u8,
        a: spec_scale8(dst.a as int, cover) as u8,
    }
}

proof fn lemma_scale8_bounds(c: int, m: int)
    requires
        0 <= c <= 255,
        0 <= m <= 255,
    ensures
        0 <= spec_scale8(c, m) <= c,
        spec_scale8(c, m) <= m,
{
    assert(0 <= c * m <= c * 255 && c * m <= 255 * m) by (nonlinear_arith)
        requires 0 <= c <= 255 && 0 <= m <= 255;
    assert(c * m / 255 <= c * 255 / 255);
    assert(c * m / 255 <= 255 * m / 255);
    assert(c * 255 / 255 == c) by (nonlinear_arith);
    assert(255 * m / 255 == m) by (nonlinear_arith);
    assert(c * m / 255 >= 0) by (nonlinear_arith)
        requires 0 <= c && 0 <= m;
}

/// Monotonicity of channel scaling in the channel argument.
proof fn lemma_scale8_mono(c1: int, c2: int, m: int)
    requires
        0 <= c1 <= c2,
        0 <= m,
    ensures
        spec_scale8(c1, m) <= spec_scale8(c2, m),
{
    assert(c1 * m <= c2 * m) by (nonlinear_arith)
        requires 0 <= c1 <= c2 && 0 <= m;
    assert(c1 * m / 255 <= c2 * m / 255) by {
        vstd::arithmetic::div_mod::lemma_div_is_ordered(c1 * m, c2 * m, 255);
    }
}

fn scale8(c: u8, m: u8) -> (r: u8)
    ensures
        r == spec_scale8(c as int, m as int),
{
    proof {
        lemma_scale8_bounds(c as int, m as int);
    }
    ((c as u32 * m as u32) / 255) as u8
}

impl Color8 {
    pub fn new(r: u8, g: u8, b: u8, a: u8) -> (c: Color8)
        ensures
            c == (Color8 { r, g, b, a }),
    {
        Color8 { r, g, b, a }
    }

    /// A fully opaque color.
    pub fn opaque(r: u8, g: u8, b: u8) -> (c: Color8)
        ensures
            c == (Color8 { r, g, b, a: 255u8 }),
    {
        Color8 { r, g, b, a: 255 }
    }

    /// Transparent black; the zero of both blend modes' source side.
    pub fn transparent() -> (c: Color8)
        ensures
            c == (Color8 { r: 0u8, g: 0u8, b: 0u8, a: 0u8 }),
    {
        Color8 { r: 0, g: 0, b: 0, a: 0 }
    }
}

/// Converts a straight color into the raster target's premultiplied model.
pub fn premultiply(c: Color8) -> (p: Color8)
    ensures
        p == spec_premultiply(c),
        premul_wf(p),
{
    proof {
        lemma_scale8_bounds(c.r as int, c.a as int);
        lemma_scale8_bounds(c.g as int, c.a as int);
        lemma_scale8_bounds(c.b as int, c.a as int);
    }
    Color8 { r: scale8(c.r, c.a), g: scale8(c.g, c.a), b: scale8(c.b, c.a), a: c.a }
}

/// Source-over blending of two premultiplied colors.
pub fn source_over(dst: Color8, src: Color8) -> (out: Color8)
    requires
        premul_wf(dst),
        premul_wf(src),
    ensures
        out == spec_source_over(dst, src),
        premul_wf(out),
{
    let inv: u8 = 255 - src.a;
    proof {
        lemma_scale8_bounds(dst.r as int, inv as int);
        lemma_scale8_bounds(dst.g as int, inv as int);
        lemma_scale8_bounds(dst.b as int, inv as int);
        lemma_scale8_bounds(dst.a as int, inv as int);
        lemma_scale8_mono(dst.r as int, dst.a as int, inv as int);
        lemma_scale8_mono(dst.g as int, dst.a as int, inv as int);
        lemma_scale8_mono(dst.b as int, dst.a as int, inv as int);
    }
    Color8 {
        r: src.r + scale8(dst.r, inv),
        g: src.g + scale8(dst.g, inv),
        b: src.b + scale8(dst.b, inv),
        a: src.a + scale8(dst.a, inv),
    }
}

/// Destination-in blending of a premultiplied color against a coverage value.
pub fn dest_in(dst: Color8, cover: u8) -> (out: Color8)
    requires
        premul_wf(dst),
    ensures
        out == spec_dest_in(dst, cover as int),
        premul_wf(out),
{
    proof {
        lemma_scale8_bounds(dst.r as int, cover as int);
        lemma_scale8_bounds(dst.g as int, cover as int);
        lemma_scale8_bounds(dst.b as int, cover as int);
        lemma_scale8_bounds(dst.a as int, cover as int);
        lemma_scale8_mono(dst.r as int, dst.a as int, cover as int);
        lemma_scale8_mono(dst.g as int, dst.a as int, cover as int);
        lemma_scale8_mono(dst.b as int, dst.a as int, cover as int);
    }
    Color8 {
        r: scale8(dst.r, cover),
        g: scale8(dst.g, cover),
        b: scale8(dst.b, cover),
        a: scale8(dst.a, cover),
    }
}

} // verus!
