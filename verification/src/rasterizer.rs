//! The software triangle rasterizer: draws a frame's clipped triangle-mesh
//! primitives onto a raster target, sampling each primitive's texture.
//!
//! A 2D-canvas-style target has no native textured-triangle primitive, so for
//! each triangle the unique affine transform from texture space to screen
//! space is derived (see `affine`); a triangle whose texture-space system is
//! degenerate is skipped as a no-op draw. Inside the triangle the transform's
//! inverse is realized by barycentric interpolation of the corner texture
//! coordinates, all in exact integer arithmetic. Coverage masks composite
//! destination-in, color images source-over, both over a fill of the
//! triangle's average vertex color; the per-primitive clip rectangle
//! intersects the triangle's own clip path.

use vstd::prelude::*;
use vstd::arithmetic::div_mod::{lemma_multiply_divide_le, lemma_multiply_divide_lt, lemma_fundamental_div_mod};
use crate::affine::{solve_affine, spec_det3};
use crate::color::{Color8, premul_wf, premultiply, source_over, dest_in, spec_premultiply, spec_source_over, spec_dest_in};
use crate::raster::{RasterTarget, RasterView};
use crate::texture::{Texture, TexView, TextureKind, tex_wf, MAX_TEXTURE_SIDE};

verus! {

/// Bound on vertex positions and clip bounds, in logical pixels.
pub const COORD_LIMIT: i32 = 1048576;

/// Largest accepted pixels-per-point scale factor.
pub const MAX_SCALE: i64 = 8;

/// One mesh vertex: position in logical pixels, texture coordinate in
/// texture pixels, straight RGBA color.
#[derive(Clone, Copy, PartialEq, Eq, Structural, Debug)]
pub struct Vertex {
    pub x: i32,
    pub y: i32,
    pub u: u32,
    pub v: u32,
    pub color: Color8,
}

pub open spec fn vertex_wf(v: Vertex) -> bool {
    &&& -COORD_LIMIT <= v.x <= COORD_LIMIT
    &&& -COORD_LIMIT <= v.y <= COORD_LIMIT
    &&& v.u <= MAX_TEXTURE_SIDE
    &&& v.v <= MAX_TEXTURE_SIDE
}

/// A clip rectangle in logical pixels: the half-open area
/// [min_x, max_x) x [min_y, max_y).
#[derive(Clone, Copy, PartialEq, Eq, Structural, Debug)]
pub struct ClipRect {
    pub min_x: i32,
    pub min_y: i32,
    pub max_x: i32,
    pub max_y: i32,
}

pub open spec fn clip_wf(c: ClipRect) -> bool {
    &&& -COORD_LIMIT <= c.min_x <= COORD_LIMIT
    &&& -COORD_LIMIT <= c.min_y <= COORD_LIMIT
    &&& -COORD_LIMIT <= c.max_x <= COORD_LIMIT
    &&& -COORD_LIMIT <= c.max_y <= COORD_LIMIT
}

/// An ordered triangle list over a vertex buffer, all referencing one
/// texture.
pub struct Mesh {
    pub vertices: Vec<Vertex>,
    pub indices: Vec<u32>,
    pub texture_id: u64,
}

/// The abstract state of a mesh.
pub struct MeshView {
    pub vertices: Seq<Vertex>,
    pub indices: Seq<u32>,
    pub texture_id: u64,
}

impl View for Mesh {
    type V = MeshView;

    open spec fn view(&self) -> MeshView {
        MeshView { vertices: self.vertices@, indices: self.indices@, texture_id: self.texture_id }
    }
}

/// Mesh invariant: the index count is a multiple of 3, every index is in
/// bounds, every vertex is within the coordinate limits.
pub open spec fn mesh_wf(m: MeshView) -> bool {
    &&& m.indices.len() % 3 == 0
    &&& forall|i: int| 0 <= i < m.indices.len() ==> (#[trigger] m.indices[i]) < m.vertices.len()
    &&& forall|i: int| 0 <= i < m.vertices.len() ==> vertex_wf(#[trigger] m.vertices[i])
}

/// One primitive of a frame: a mesh and the clip rectangle it may paint in.
pub struct ClippedPrimitive {
    pub clip: ClipRect,
    pub mesh: Mesh,
}

pub struct PrimView {
    pub clip: ClipRect,
    pub mesh: MeshView,
}

impl View for ClippedPrimitive {
    type V = PrimView;

    open spec fn view(&self) -> PrimView {
        PrimView { clip: self.clip, mesh: self.mesh@ }
    }
}

pub open spec fn prim_wf(p: PrimView) -> bool {
    clip_wf(p.clip) && mesh_wf(p.mesh)
}

/// The signed edge function: the cross product of (b - a) with (p - a);
/// zero on the line through a and b, one sign on each side.
pub open spec fn spec_edge(ax: int, ay: int, bx: int, by: int, px: int, py: int) -> int {
    (bx - ax) * (py - ay) - (by - ay) * (px - ax)
}

/// Whether the pixel (px, py) lies inside the triangle: the three edge
/// functions agree in sign and their sum, the signed doubled area, is not
/// zero. A triangle of zero screen area covers nothing.
pub open spec fn spec_covers(
    x0: int,
    y0: int,
    x1: int,
    y1: int,
    x2: int,
    y2: int,
    px: int,
    py: int,
) -> bool {
    let w0 = spec_edge(x1, y1, x2, y2, px, py);
    let w1 = spec_edge(x2, y2, x0, y0, px, py);
    let w2 = spec_edge(x0, y0, x1, y1, px, py);
    ||| (w0 >= 0 && w1 >= 0 && w2 >= 0 && w0 + w1 + w2 > 0)
    ||| (w0 <= 0 && w1 <= 0 && w2 <= 0 && w0 + w1 + w2 < 0)
}

/// Barycentric interpolation of one texture-coordinate channel at the pixel
/// (px, py): the weighted average of the three corner values g0, g1, g2,
/// rounded down. Meaningful only where the triangle covers the pixel.
pub open spec fn spec_sample_channel(
    x0: int,
    y0: int,
    x1: int,
    y1: int,
    x2: int,
    y2: int,
    px: int,
    py: int,
    g0: int,
    g1: int,
    g2: int,
) -> int {
    let w0 = spec_edge(x1, y1, x2, y2, px, py);
    let w1 = spec_edge(x2, y2, x0, y0, px, py);
    let w2 = spec_edge(x0, y0, x1, y1, px, py);
    let s = w0 + w1 + w2;
    if s > 0 {
        (w0 * g0 + w1 * g1 + w2 * g2) / s
    } else {
        ((-w0) * g0 + (-w1) * g1 + (-w2) * g2) / (-s)
    }
}

/// The triangle's fill color: the average of the three vertex colors,
/// opaque.
pub open spec fn spec_avg_color(c0: Color8, c1: Color8, c2: Color8) -> Color8 {
    Color8 {
        r: ((c0.r + c1.r + c2.r) / 3) as u8,
        g: ((c0.g + c1.g + c2.g) / 3) as u8,
        b: ((c0.b + c1.b + c2.b) / 3) as u8,
        a: 255u8,
    }
}

/// One pixel of the target after one triangle was drawn over it. Outside
/// the clip rectangle and outside the triangle the pixel is untouched.
/// Inside, the triangle is filled with the average vertex color, then the
/// texture, mapped by the triangle's affine transform, is composited over
/// it: source-over for color textures; destination-in against the coverage
/// for font textures, which keeps only covered fill and erases the rest of
/// the triangle's interior.
pub open spec fn spec_draw_pixel(
    dst: Color8,
    a: Vertex,
    b: Vertex,
    c: Vertex,
    tex: TexView,
    clip: ClipRect,
    ppp: int,
    px: int,
    py: int,
) -> Color8 {
    let x0 = a.x * ppp;
    let y0 = a.y * ppp;
    let x1 = b.x * ppp;
    let y1 = b.y * ppp;
    let x2 = c.x * ppp;
    let y2 = c.y * ppp;
    let in_clip = clip.min_x * ppp <= px < clip.max_x * ppp && clip.min_y * ppp <= py < clip.max_y
        * ppp;
    if in_clip && spec_covers(x0, y0, x1, y1, x2, y2, px, py) {
        let filled = spec_source_over(
            dst,
            spec_premultiply(spec_avg_color(a.color, b.color, c.color)),
        );
        let tq = spec_sample_channel(x0, y0, x1, y1, x2, y2, px, py, a.u as int, b.u as int, c.u as int);
        let tr = spec_sample_channel(x0, y0, x1, y1, x2, y2, px, py, a.v as int, b.v as int, c.v as int);
        if tq < tex.width && tr < tex.height {
            let texel = tex.texel(tq, tr);
            if tex.kind is Font {
                spec_dest_in(filled, texel.a as int)
            } else {
                spec_source_over(filled, spec_premultiply(texel))
            }
        } else {
            if tex.kind is Font {
                Color8 { r: 0u8, g: 0u8, b: 0u8, a: 0u8 }
            } else {
                filled
            }
        }
    } else {
        dst
    }
}

/// The target after one triangle was drawn: unchanged when the triangle is
/// degenerate in texture space (no affine transform exists), otherwise every
/// pixel is drawn over per `spec_draw_pixel`.
pub open spec fn spec_draw_triangle(
    v: RasterView,
    a: Vertex,
    b: Vertex,
    c: Vertex,
    tex: TexView,
    clip: ClipRect,
    ppp: int,
) -> RasterView {
    if spec_det3(a.u as int, a.v as int, b.u as int, b.v as int, c.u as int, c.v as int) == 0 {
        v
    } else {
        RasterView {
            width: v.width,
            height: v.height,
            pixels: Seq::new(
                v.pixels.len(),
                |i: int| spec_draw_pixel(v.pixels[i], a, b, c, tex, clip, ppp, i % v.width, i / v.width),
            ),
        }
    }
}

/// The vertex that the mesh's index j names.
pub open spec fn tri_vertex(m: MeshView, j: int) -> Vertex {
    m.vertices[m.indices[j] as int]
}

/// The target after the mesh's first t triangles were drawn, in order.
pub open spec fn spec_draw_mesh_upto(
    v: RasterView,
    m: MeshView,
    tex: TexView,
    clip: ClipRect,
    ppp: int,
    t: int,
) -> RasterView
    decreases t,
{
    if t <= 0 {
        v
    } else {
        spec_draw_triangle(
            spec_draw_mesh_upto(v, m, tex, clip, ppp, t - 1),
            tri_vertex(m, 3 * (t - 1)),
            tri_vertex(m, 3 * (t - 1) + 1),
            tri_vertex(m, 3 * (t - 1) + 2),
            tex,
            clip,
            ppp,
        )
    }
}

/// The target after one whole primitive. A primitive whose texture id has no
/// cache entry fails alone and paints nothing; the frame continues.
pub open spec fn spec_draw_prim(
    v: RasterView,
    p: PrimView,
    cache: Map<u64, TexView>,
    ppp: int,
) -> RasterView {
    if cache.contains_key(p.mesh.texture_id) {
        spec_draw_mesh_upto(
            v,
            p.mesh,
            cache[p.mesh.texture_id],
            p.clip,
            ppp,
            p.mesh.indices.len() as int / 3,
        )
    } else {
        v
    }
}

/// The target after the first k primitives of the frame, in order.
pub open spec fn spec_draw_prims_upto(
    v: RasterView,
    ps: Seq<PrimView>,
    cache: Map<u64, TexView>,
    ppp: int,
    k: int,
) -> RasterView
    decreases k,
{
    if k <= 0 {
        v
    } else {
        spec_draw_prim(spec_draw_prims_upto(v, ps, cache, ppp, k - 1), ps[k - 1], cache, ppp)
    }
}

/// Law: drawing never changes the shape of the target. A whole frame of
/// primitives leaves the width, the height and the pixel count exactly as
/// the clear left them; only pixel values change.
pub proof fn lemma_draw_preserves_shape(
    v: RasterView,
    ps: Seq<PrimView>,
    cache: Map<u64, TexView>,
    ppp: int,
    k: int,
)
    ensures
        spec_draw_prims_upto(v, ps, cache, ppp, k).width == v.width,
        spec_draw_prims_upto(v, ps, cache, ppp, k).height == v.height,
        spec_draw_prims_upto(v, ps, cache, ppp, k).pixels.len() == v.pixels.len(),
    decreases k,
{
    if k > 0 {
        lemma_draw_preserves_shape(v, ps, cache, ppp, k - 1);
        let prev = spec_draw_prims_upto(v, ps, cache, ppp, k - 1);
        let p = ps[k - 1];
        if cache.contains_key(p.mesh.texture_id) {
            lemma_draw_mesh_preserves_shape(
                prev,
                p.mesh,
                cache[p.mesh.texture_id],
                p.clip,
                ppp,
                p.mesh.indices.len() as int / 3,
            );
        }
    }
}

proof fn lemma_draw_mesh_preserves_shape(
    v: RasterView,
    m: MeshView,
    tex: TexView,
    clip: ClipRect,
    ppp: int,
    t: int,
)
    ensures
        spec_draw_mesh_upto(v, m, tex, clip, ppp, t).width == v.width,
        spec_draw_mesh_upto(v, m, tex, clip, ppp, t).height == v.height,
        spec_draw_mesh_upto(v, m, tex, clip, ppp, t).pixels.len() == v.pixels.len(),
    decreases t,
{
    if t > 0 {
        lemma_draw_mesh_preserves_shape(v, m, tex, clip, ppp, t - 1);
    }
}

fn scale_coord(c: i32, ppp: i64) -> (r: i64)
    requires
        -COORD_LIMIT <= c <= COORD_LIMIT,
        1 <= ppp <= MAX_SCALE,
    ensures
        r == c * ppp,
        -0x800000 <= r <= 0x800000,
{
    proof {
        assert(-0x800000 <= (c as int) * (ppp as int) <= 0x800000) by (nonlinear_arith)
            requires
                -1048576 <= c <= 1048576,
                1 <= ppp <= 8;
    }
    (c as i64) * ppp
}

fn edge(ax: i64, ay: i64, bx: i64, by: i64, px: i64, py: i64) -> (r: i64)
    requires
        -0x800000 <= ax <= 0x800000,
        -0x800000 <= ay <= 0x800000,
        -0x800000 <= bx <= 0x800000,
        -0x800000 <= by <= 0x800000,
        -0x800000 <= px <= 0x800000,
        -0x800000 <= py <= 0x800000,
    ensures
        r == spec_edge(ax as int, ay as int, bx as int, by as int, px as int, py as int),
        -0x2000000000000 <= r <= 0x2000000000000,
{
    proof {
        assert(-0x1000000000000 <= ((bx - ax) as int) * ((py - ay) as int) <= 0x1000000000000
            && -0x1000000000000 <= ((by - ay) as int) * ((px - ax) as int) <= 0x1000000000000)
            by (nonlinear_arith)
            requires
                -0x1000000 <= bx - ax <= 0x1000000,
                -0x1000000 <= py - ay <= 0x1000000,
                -0x1000000 <= by - ay <= 0x1000000,
                -0x1000000 <= px - ax <= 0x1000000;
    }
    (bx - ax) * (py - ay) - (by - ay) * (px - ax)
}

fn sample_channel(
    x0: i64,
    y0: i64,
    x1: i64,
    y1: i64,
    x2: i64,
    y2: i64,
    px: i64,
    py: i64,
    g0: u32,
    g1: u32,
    g2: u32,
) -> (r: usize)
    requires
        -0x800000 <= x0 <= 0x800000,
        -0x800000 <= y0 <= 0x800000,
        -0x800000 <= x1 <= 0x800000,
        -0x800000 <= y1 <= 0x800000,
        -0x800000 <= x2 <= 0x800000,
        -0x800000 <= y2 <= 0x800000,
        -0x800000 <= px <= 0x800000,
        -0x800000 <= py <= 0x800000,
        g0 <= MAX_TEXTURE_SIDE,
        g1 <= MAX_TEXTURE_SIDE,
        g2 <= MAX_TEXTURE_SIDE,
        spec_covers(x0 as int, y0 as int, x1 as int, y1 as int, x2 as int, y2 as int, px as int, py as int),
    ensures
        r == spec_sample_channel(
            x0 as int,
            y0 as int,
            x1 as int,
            y1 as int,
            x2 as int,
            y2 as int,
            px as int,
            py as int,
            g0 as int,
            g1 as int,
            g2 as int,
        ),
        r <= MAX_TEXTURE_SIDE,
{
    let w0 = edge(x1, y1, x2, y2, px, py);
    let w1 = edge(x2, y2, x0, y0, px, py);
    let w2 = edge(x0, y0, x1, y1, px, py);
    let s = w0 + w1 + w2;
    let n0: u128;
    let n1: u128;
    let n2: u128;
    let den: u128;
    if s > 0 {
        n0 = w0 as u128;
        n1 = w1 as u128;
        n2 = w2 as u128;
        den = s as u128;
    } else {
        n0 = (-w0) as u128;
        n1 = (-w1) as u128;
        n2 = (-w2) as u128;
        den = (-s) as u128;
    }
    proof {
        assert(n0 * (g0 as u128) <= 0x2000000000000 * 65535 && n1 * (g1 as u128) <= 0x2000000000000
            * 65535 && n2 * (g2 as u128) <= 0x2000000000000 * 65535) by (nonlinear_arith)
            requires
                n0 <= 0x2000000000000,
                n1 <= 0x2000000000000,
                n2 <= 0x2000000000000,
                g0 <= 65535,
                g1 <= 65535,
                g2 <= 65535;
    }
    let num: u128 = n0 * (g0 as u128) + n1 * (g1 as u128) + n2 * (g2 as u128);
    proof {
        assert(num <= den * 65535) by (nonlinear_arith)
            requires
                num == n0 * (g0 as u128) + n1 * (g1 as u128) + n2 * (g2 as u128),
                den == n0 + n1 + n2,
                g0 <= 65535,
                g1 <= 65535,
                g2 <= 65535,
                n0 >= 0,
                n1 >= 0,
                n2 >= 0;
        lemma_multiply_divide_le(num as int, den as int, 65535);
    }
    let q = num / den;
    q as usize
}

fn avg3(c0: u8, c1: u8, c2: u8) -> (r: u8)
    ensures
        r == ((c0 + c1 + c2) / 3) as u8,
        r <= 255,
{
    ((c0 as u32 + c1 as u32 + c2 as u32) / 3) as u8
}

fn avg_color(c0: Color8, c1: Color8, c2: Color8) -> (r: Color8)
    ensures
        r == spec_avg_color(c0, c1, c2),
{
    Color8 { r: avg3(c0.r, c1.r, c2.r), g: avg3(c0.g, c1.g, c2.g), b: avg3(c0.b, c1.b, c2.b), a: 255 }
}

fn draw_pixel(
    dst: Color8,
    a: Vertex,
    b: Vertex,
    c: Vertex,
    tex: &Texture,
    clip: ClipRect,
    ppp: i64,
    px: usize,
    py: usize,
) -> (out: Color8)
    requires
        premul_wf(dst),
        vertex_wf(a),
        vertex_wf(b),
        vertex_wf(c),
        tex_wf(tex@),
        clip_wf(clip),
        1 <= ppp <= MAX_SCALE,
        px <= 0x800000,
        py <= 0x800000,
    ensures
        out == spec_draw_pixel(dst, a, b, c, tex@, clip, ppp as int, px as int, py as int),
        premul_wf(out),
{
    let x0 = scale_coord(a.x, ppp);
    let y0 = scale_coord(a.y, ppp);
    let x1 = scale_coord(b.x, ppp);
    let y1 = scale_coord(b.y, ppp);
    let x2 = scale_coord(c.x, ppp);
    let y2 = scale_coord(c.y, ppp);
    let pxi = px as i64;
    let pyi = py as i64;
    let in_clip = scale_coord(clip.min_x, ppp) <= pxi && pxi < scale_coord(clip.max_x, ppp)
        && scale_coord(clip.min_y, ppp) <= pyi && pyi < scale_coord(clip.max_y, ppp);
    if !in_clip {
        return dst;
    }
    let w0 = edge(x1, y1, x2, y2, pxi, pyi);
    let w1 = edge(x2, y2, x0, y0, pxi, pyi);
    let w2 = edge(x0, y0, x1, y1, pxi, pyi);
    let s = w0 + w1 + w2;
    let covered = (w0 >= 0 && w1 >= 0 && w2 >= 0 && s > 0) || (w0 <= 0 && w1 <= 0 && w2 <= 0 && s
        < 0);
    if !covered {
        return dst;
    }
    let filled = source_over(dst, premultiply(avg_color(a.color, b.color, c.color)));
    let tq = sample_channel(x0, y0, x1, y1, x2, y2, pxi, pyi, a.u, b.u, c.u);
    let tr = sample_channel(x0, y0, x1, y1, x2, y2, pxi, pyi, a.v, b.v, c.v);
    if tq < tex.width && tr < tex.height {
        proof {
            assert(tr * tex@.width + tq < tex@.width * tex@.height && tex@.width * tex@.height
                <= 65535 * 65535) by (nonlinear_arith)
                requires
                    0 <= tq < tex@.width,
                    0 <= tr < tex@.height,
                    0 < tex@.width <= 65535,
                    0 < tex@.height <= 65535;
        }
        let texel = tex.pixels[tr * tex.width + tq];
        match tex.kind {
            TextureKind::Font => dest_in(filled, texel.a),
            TextureKind::Color => source_over(filled, premultiply(texel)),
        }
    } else {
        match tex.kind {
            TextureKind::Font => Color8 { r: 0, g: 0, b: 0, a: 0 },
            TextureKind::Color => filled,
        }
    }
}

/// Draws one triangle onto the target: derives the affine transform for the
/// triangle, skips the draw when the texture-space system is degenerate,
/// otherwise composites every covered pixel.
fn draw_triangle(
    target: &mut RasterTarget,
    a: Vertex,
    b: Vertex,
    c: Vertex,
    tex: &Texture,
    clip: ClipRect,
    ppp: i64,
)
    requires
        old(target).wf(),
        vertex_wf(a),
        vertex_wf(b),
        vertex_wf(c),
        tex_wf(tex@),
        clip_wf(clip),
        1 <= ppp <= MAX_SCALE,
    ensures
        final(target)@ == spec_draw_triangle(old(target)@, a, b, c, tex@, clip, ppp as int),
        final(target).wf(),
{
    let transform = solve_affine(
        a.u as i64,
        a.v as i64,
        b.u as i64,
        b.v as i64,
        c.u as i64,
        c.v as i64,
        scale_coord(a.x, ppp),
        scale_coord(a.y, ppp),
        scale_coord(b.x, ppp),
        scale_coord(b.y, ppp),
        scale_coord(c.x, ppp),
        scale_coord(c.y, ppp),
    );
    if transform.is_none() {
        return;
    }
    let w = target.width();
    let h = target.height();
    proof {
        assert(0 < w * h <= 16384 * 16384) by (nonlinear_arith)
            requires
                0 < w <= 16384,
                0 < h <= 16384;
    }
    let n = w * h;
    let mut out: Vec<Color8> = Vec::with_capacity(n);
    let mut i: usize = 0;
    while i < n
        invariant
            0 <= i <= n,
            out@.len() == i,
            n == w * h,
            0 < w <= 16384,
            0 < h <= 16384,
            target@ == old(target)@,
            target.wf(),
            w == target@.width,
            h == target@.height,
            vertex_wf(a),
            vertex_wf(b),
            vertex_wf(c),
            tex_wf(tex@),
            clip_wf(clip),
            1 <= ppp <= MAX_SCALE,
            forall|k: int|
                0 <= k < i ==> out@[k] == spec_draw_pixel(
                    target@.pixels[k],
                    a,
                    b,
                    c,
                    tex@,
                    clip,
                    ppp as int,
                    k % (w as int),
                    k / (w as int),
                ),
            forall|k: int| 0 <= k < i ==> premul_wf(#[trigger] out@[k]),
        decreases n - i,
    {
        let px = i % w;
        let py = i / w;
        proof {
            lemma_multiply_divide_lt(i as int, w as int, h as int);
            assert(i as int % (w as int) == px as int);
            assert(i as int / (w as int) == py as int);
        }
        let dst = target.pixel_at(i);
        let value = draw_pixel(dst, a, b, c, tex, clip, ppp, px, py);
        out.push(value);
        i = i + 1;
    }
    target.replace_pixels(out);
    proof {
        let sp = spec_draw_triangle(old(target)@, a, b, c, tex@, clip, ppp as int);
        assert(target@.pixels =~= sp.pixels);
    }
}

/// Law: the sampling weights are exact barycentric coordinates of the
/// pixel. Applied to the three screen corners they reproduce the pixel
/// itself, scaled by their sum; the texture coordinate interpolated with
/// the same weights is therefore the exact inverse image of the pixel
/// under the triangle's affine transform, before rounding.
pub proof fn lemma_weights_reproduce_pixel(
    x0: int,
    y0: int,
    x1: int,
    y1: int,
    x2: int,
    y2: int,
    px: int,
    py: int,
)
    ensures
        ({
            let w0 = spec_edge(x1, y1, x2, y2, px, py);
            let w1 = spec_edge(x2, y2, x0, y0, px, py);
            let w2 = spec_edge(x0, y0, x1, y1, px, py);
            &&& w0 * x0 + w1 * x1 + w2 * x2 == (w0 + w1 + w2) * px
            &&& w0 * y0 + w1 * y1 + w2 * y2 == (w0 + w1 + w2) * py
        }),
{
    let w0 = spec_edge(x1, y1, x2, y2, px, py);
    let w1 = spec_edge(x2, y2, x0, y0, px, py);
    let w2 = spec_edge(x0, y0, x1, y1, px, py);
    // The corners relative to the pixel.
    let a0 = x0 - px;
    let b0 = y0 - py;
    let a1 = x1 - px;
    let b1 = y1 - py;
    let a2 = x2 - px;
    let b2 = y2 - py;
    // Each weight is the cross product of the other two relative corners.
    assert(w0 == a1 * b2 - a2 * b1) by (nonlinear_arith)
        requires
            w0 == (x2 - x1) * (py - y1) - (y2 - y1) * (px - x1),
            a1 == x1 - px,
            b1 == y1 - py,
            a2 == x2 - px,
            b2 == y2 - py;
    assert(w1 == a2 * b0 - a0 * b2) by (nonlinear_arith)
        requires
            w1 == (x0 - x2) * (py - y2) - (y0 - y2) * (px - x2),
            a0 == x0 - px,
            b0 == y0 - py,
            a2 == x2 - px,
            b2 == y2 - py;
    assert(w2 == a0 * b1 - a1 * b0) by (nonlinear_arith)
        requires
            w2 == (x1 - x0) * (py - y0) - (y1 - y0) * (px - x0),
            a0 == x0 - px,
            b0 == y0 - py,
            a1 == x1 - px,
            b1 == y1 - py;
    lemma_relative_weights_cancel(a0, b0, a1, b1, a2, b2);
    // From the two cancellations back to the absolute corners.
    assert(w0 * a0 == w0 * x0 - w0 * px) by (nonlinear_arith)
        requires
            a0 == x0 - px;
    assert(w1 * a1 == w1 * x1 - w1 * px) by (nonlinear_arith)
        requires
            a1 == x1 - px;
    assert(w2 * a2 == w2 * x2 - w2 * px) by (nonlinear_arith)
        requires
            a2 == x2 - px;
    assert((w0 + w1 + w2) * px == w0 * px + w1 * px + w2 * px) by (nonlinear_arith);
    assert(w0 * b0 == w0 * y0 - w0 * py) by (nonlinear_arith)
        requires
            b0 == y0 - py;
    assert(w1 * b1 == w1 * y1 - w1 * py) by (nonlinear_arith)
        requires
            b1 == y1 - py;
    assert(w2 * b2 == w2 * y2 - w2 * py) by (nonlinear_arith)
        requires
            b2 == y2 - py;
    assert((w0 + w1 + w2) * py == w0 * py + w1 * py + w2 * py) by (nonlinear_arith);
}

/// The edge weights built from corners relative to the pixel annihilate
/// those corners: the cyclic cross-product terms cancel pairwise.
proof fn lemma_relative_weights_cancel(a0: int, b0: int, a1: int, b1: int, a2: int, b2: int)
    ensures
        (a1 * b2 - a2 * b1) * a0 + (a2 * b0 - a0 * b2) * a1 + (a0 * b1 - a1 * b0) * a2 == 0,
        (a1 * b2 - a2 * b1) * b0 + (a2 * b0 - a0 * b2) * b1 + (a0 * b1 - a1 * b0) * b2 == 0,
{
    assert((a1 * b2 - a2 * b1) * a0 + (a2 * b0 - a0 * b2) * a1 + (a0 * b1 - a1 * b0) * a2 == 0)
        by (nonlinear_arith);
    assert((a1 * b2 - a2 * b1) * b0 + (a2 * b0 - a0 * b2) * b1 + (a0 * b1 - a1 * b0) * b2 == 0)
        by (nonlinear_arith);
}

/// Draws every triangle of the mesh, in index order, sampling the one
/// texture the mesh references.
pub(crate) fn draw_mesh(
    target: &mut RasterTarget,
    tex: &Texture,
    mesh: &Mesh,
    clip: ClipRect,
    ppp: i64,
)
    requires
        old(target).wf(),
        tex_wf(tex@),
        mesh_wf(mesh@),
        clip_wf(clip),
        1 <= ppp <= MAX_SCALE,
    ensures
        final(target)@ == spec_draw_mesh_upto(
            old(target)@,
            mesh@,
            tex@,
            clip,
            ppp as int,
            mesh@.indices.len() as int / 3,
        ),
        final(target).wf(),
{
    let num_tris = mesh.indices.len() / 3;
    proof {
        lemma_fundamental_div_mod(mesh@.indices.len() as int, 3);
        assert(mesh@.indices.len() == 3 * num_tris);
    }
    let mut t: usize = 0;
    while t < num_tris
        invariant
            0 <= t <= num_tris,
            mesh@.indices.len() == 3 * num_tris,
            mesh@.indices.len() <= usize::MAX,
            mesh_wf(mesh@),
            tex_wf(tex@),
            clip_wf(clip),
            1 <= ppp <= MAX_SCALE,
            target.wf(),
            target@ == spec_draw_mesh_upto(old(target)@, mesh@, tex@, clip, ppp as int, t as int),
        decreases num_tris - t,
    {
        let i0 = mesh.indices[3 * t];
        let i1 = mesh.indices[3 * t + 1];
        let i2 = mesh.indices[3 * t + 2];
        let va = mesh.vertices[i0 as usize];
        let vb = mesh.vertices[i1 as usize];
        let vc = mesh.vertices[i2 as usize];
        proof {
            assert(va == tri_vertex(mesh@, 3 * (t as int)));
            assert(vb == tri_vertex(mesh@, 3 * (t as int) + 1));
            assert(vc == tri_vertex(mesh@, 3 * (t as int) + 2));
        }
        draw_triangle(target, va, vb, vc, tex, clip, ppp);
        t = t + 1;
    }
}

} // verus!
