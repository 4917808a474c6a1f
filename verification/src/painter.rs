//! The per-frame painting entry point: applies the frame's texture deltas,
//! draws its clipped primitives, then processes its frees.
//!
//! The ordering is fixed by the frame protocol: uploads land before any
//! primitive that references them draws, and frees are processed only after
//! every draw of the frame, so a primitive may reference a texture freed in
//! the same frame. A delta that patches an unknown id and a primitive that
//! references an unknown id are protocol violations: each is reported and
//! skipped, and the frame continues.

use vstd::prelude::*;
use crate::color::Color8;
use crate::raster::{RasterTarget, RasterView};
use crate::rasterizer::{ClippedPrimitive, PrimView, prim_wf, draw_mesh, spec_draw_prims_upto, MAX_SCALE};
use crate::texture::{TexView, TextureCache, TextureError, TextureKind, tex_wf, spec_patch, spec_upload_full, spec_free, MAX_TEXTURE_SIDE};

verus! {

/// The destination offset of a patch delta.
#[derive(Clone, Copy, PartialEq, Eq, Structural, Debug)]
pub struct PatchPos {
    pub x: usize,
    pub y: usize,
}

/// A delta's pixel payload: full-color RGBA, or a single coverage channel
/// for a glyph mask.
pub enum TexturePayload {
    ColorRgba(Vec<Color8>),
    Coverage(Vec<u8>),
}

/// One incremental texture instruction: a full replace when pos is absent, a
/// patch into the existing bitmap when pos is present.
pub struct TextureDelta {
    pub id: u64,
    pub pos: Option<PatchPos>,
    pub width: usize,
    pub height: usize,
    pub payload: TexturePayload,
}

/// The abstract state of a delta: its payload normalized to stored pixels,
/// with a coverage payload broadcast into all four channels.
pub struct DeltaView {
    pub id: u64,
    pub pos: Option<PatchPos>,
    pub width: int,
    pub height: int,
    pub kind: TextureKind,
    pub pixels: Seq<Color8>,
}

impl View for TextureDelta {
    type V = DeltaView;

    open spec fn view(&self) -> DeltaView {
        DeltaView {
            id: self.id,
            pos: self.pos,
            width: self.width as int,
            height: self.height as int,
            kind: match self.payload {
                TexturePayload::ColorRgba(_) => TextureKind::Color,
                TexturePayload::Coverage(_) => TextureKind::Font,
            },
            pixels: match self.payload {
                TexturePayload::ColorRgba(v) => v@,
                TexturePayload::Coverage(v) => v@.map(
                    |i: int, cv: u8| Color8 { r: cv, g: cv, b: cv, a: cv },
                ),
            },
        }
    }
}

pub open spec fn delta_wf(d: DeltaView) -> bool {
    &&& d.pixels.len() == d.width * d.height
    &&& 0 < d.width <= MAX_TEXTURE_SIDE
    &&& 0 < d.height <= MAX_TEXTURE_SIDE
    &&& match d.pos {
        Some(p) => p.x <= MAX_TEXTURE_SIDE && p.y <= MAX_TEXTURE_SIDE,
        None => true,
    }
}

/// The two sets of texture instructions of one frame.
pub struct TexturesDelta {
    pub set: Vec<TextureDelta>,
    pub free: Vec<u64>,
}

pub struct TexturesDeltaView {
    pub set: Seq<DeltaView>,
    pub free: Seq<u64>,
}

impl View for TexturesDelta {
    type V = TexturesDeltaView;

    open spec fn view(&self) -> TexturesDeltaView {
        TexturesDeltaView {
            set: self.set@.map(|i: int, d: TextureDelta| d@),
            free: self.free@,
        }
    }
}

/// Whether a delta is accepted: a full upload always is; a patch only when
/// its id has an entry.
pub open spec fn spec_delta_ok(m: Map<u64, TexView>, d: DeltaView) -> bool {
    d.pos is None || m.contains_key(d.id)
}

/// The cache after one delta: a full upload replaces or creates the entry; a
/// patch rewrites the patched rectangle; a rejected patch changes nothing.
pub open spec fn spec_apply_delta(m: Map<u64, TexView>, d: DeltaView) -> Map<u64, TexView> {
    match d.pos {
        None => spec_upload_full(
            m,
            d.id,
            TexView { width: d.width, height: d.height, kind: d.kind, pixels: d.pixels },
        ),
        Some(p) => if m.contains_key(d.id) {
            m.insert(d.id, spec_patch(m[d.id], p.x as int, p.y as int, d.width, d.height, d.pixels))
        } else {
            m
        },
    }
}

/// The cache after the first k deltas, in order.
pub open spec fn spec_apply_deltas_upto(m: Map<u64, TexView>, ds: Seq<DeltaView>, k: int) -> Map<u64, TexView>
    decreases k,
{
    if k <= 0 {
        m
    } else {
        spec_apply_delta(spec_apply_deltas_upto(m, ds, k - 1), ds[k - 1])
    }
}

/// The cache after the first k frees, in order.
pub open spec fn spec_apply_frees_upto(m: Map<u64, TexView>, fs: Seq<u64>, k: int) -> Map<u64, TexView>
    decreases k,
{
    if k <= 0 {
        m
    } else {
        spec_free(spec_apply_frees_upto(m, fs, k - 1), fs[k - 1])
    }
}

/// A protocol violation found while painting a frame; the violating delta or
/// primitive was skipped and the frame went on.
#[derive(Clone, Copy, PartialEq, Eq, Structural, Debug)]
pub enum PaintError {
    /// A patch delta named an id that has no entry.
    UnknownPatchId(u64),
    /// A primitive referenced a texture id that has no entry.
    UnknownTextureId(u64),
}

/// The errors reported by the first k deltas, in order.
pub open spec fn spec_delta_errors_upto(m: Map<u64, TexView>, ds: Seq<DeltaView>, k: int) -> Seq<PaintError>
    decreases k,
{
    if k <= 0 {
        Seq::empty()
    } else {
        let prev = spec_delta_errors_upto(m, ds, k - 1);
        if spec_delta_ok(spec_apply_deltas_upto(m, ds, k - 1), ds[k - 1]) {
            prev
        } else {
            prev.push(PaintError::UnknownPatchId(ds[k - 1].id))
        }
    }
}

/// The errors reported by the first k primitives, in order. The cache does
/// not change while primitives draw, so one map decides them all.
pub open spec fn spec_prim_errors_upto(m: Map<u64, TexView>, ps: Seq<PrimView>, k: int) -> Seq<PaintError>
    decreases k,
{
    if k <= 0 {
        Seq::empty()
    } else {
        let prev = spec_prim_errors_upto(m, ps, k - 1);
        if m.contains_key(ps[k - 1].mesh.texture_id) {
            prev
        } else {
            prev.push(PaintError::UnknownTextureId(ps[k - 1].mesh.texture_id))
        }
    }
}

fn copy_pixels(v: &Vec<Color8>) -> (r: Vec<Color8>)
    ensures
        r@ == v@,
{
    let n = v.len();
    let mut r: Vec<Color8> = Vec::with_capacity(n);
    let mut i: usize = 0;
    while i < n
        invariant
            0 <= i <= n,
            r@.len() == i,
            n == v@.len(),
            forall|k: int| 0 <= k < i ==> r@[k] == v@[k],
        decreases n - i,
    {
        r.push(v[i]);
        i = i + 1;
    }
    proof {
        assert(r@ =~= v@);
    }
    r
}

fn broadcast_coverage(v: &Vec<u8>) -> (r: Vec<Color8>)
    ensures
        r@ == v@.map(|i: int, cv: u8| Color8 { r: cv, g: cv, b: cv, a: cv }),
{
    let n = v.len();
    let mut r: Vec<Color8> = Vec::with_capacity(n);
    let mut i: usize = 0;
    while i < n
        invariant
            0 <= i <= n,
            r@.len() == i,
            n == v@.len(),
            forall|k: int| 0 <= k < i ==> r@[k] == (Color8 { r: v@[k], g: v@[k], b: v@[k], a: v@[k] }),
        decreases n - i,
    {
        let cv = v[i];
        r.push(Color8 { r: cv, g: cv, b: cv, a: cv });
        i = i + 1;
    }
    proof {
        assert(r@ =~= v@.map(|i: int, cv: u8| Color8 { r: cv, g: cv, b: cv, a: cv }));
    }
    r
}

/// Draws clipped primitives onto a raster target, keeping the texture cache
/// up to date from the frame's deltas.
pub struct TriangleRasterizer {
    cache: TextureCache,
}

impl View for TriangleRasterizer {
    type V = Map<u64, TexView>;

    closed spec fn view(&self) -> Map<u64, TexView> {
        self.cache@
    }
}

impl TriangleRasterizer {
    /// Well-formedness: every cached texture is well formed. The body
    /// delegates to the cache's own invariant; it is established by `new`
    /// and preserved by every method, which is how callers carry it.
    pub closed spec fn wf(self) -> bool {
        self.cache.wf()
    }

    pub fn new() -> (r: TriangleRasterizer)
        ensures
            r@ == Map::<u64, TexView>::empty(),
            r.wf(),
    {
        TriangleRasterizer { cache: TextureCache::new() }
    }

    /// The fixed capability query: the largest texture side accepted.
    pub fn max_texture_side(&self) -> (n: usize)
        ensures
            n == MAX_TEXTURE_SIDE,
    {
        MAX_TEXTURE_SIDE
    }

    pub fn has_texture(&self, id: u64) -> (b: bool)
        ensures
            b == self@.contains_key(id),
    {
        self.cache.contains(id)
    }

    /// Applies one texture delta. A patch that names an unknown id is
    /// rejected, exactly then.
    pub fn apply_delta(&mut self, d: &TextureDelta) -> (r: Result<(), TextureError>)
        requires
            old(self).wf(),
            delta_wf(d@),
        ensures
            final(self).wf(),
            final(self)@ == spec_apply_delta(old(self)@, d@),
            r is Ok <==> spec_delta_ok(old(self)@, d@),
    {
        match &d.pos {
            None => {
                let kind: TextureKind;
                let pixels: Vec<Color8>;
                match &d.payload {
                    TexturePayload::ColorRgba(v) => {
                        kind = TextureKind::Color;
                        pixels = copy_pixels(v);
                    },
                    TexturePayload::Coverage(v) => {
                        kind = TextureKind::Font;
                        pixels = broadcast_coverage(v);
                    },
                }
                self.cache.upload_full(d.id, d.width, d.height, kind, pixels);
                Ok(())
            },
            Some(p) => {
                match &d.payload {
                    TexturePayload::ColorRgba(v) => {
                        self.cache.upload_patch(d.id, p.x, p.y, d.width, d.height, v)
                    },
                    TexturePayload::Coverage(v) => {
                        let pixels = broadcast_coverage(v);
                        self.cache.upload_patch(d.id, p.x, p.y, d.width, d.height, &pixels)
                    },
                }
            },
        }
    }

    /// Releases the texture for id.
    pub fn free(&mut self, id: u64)
        requires
            old(self).wf(),
        ensures
            final(self).wf(),
            final(self)@ == spec_free(old(self)@, id),
    {
        self.cache.free(id);
    }

    /// Updates the cache from the frame's deltas, draws the frame's clipped
    /// primitives onto the target in order, then processes the frame's
    /// frees. Each rejected patch and each primitive whose texture id has no
    /// entry is reported in order and skipped; the frame always runs to
    /// completion.
    pub fn paint_and_update_textures(
        &mut self,
        target: &mut RasterTarget,
        ppp: i64,
        primitives: &Vec<ClippedPrimitive>,
        deltas: &TexturesDelta,
    ) -> (errors: Vec<PaintError>)
        requires
            old(self).wf(),
            old(target).wf(),
            1 <= ppp <= MAX_SCALE,
            forall|i: int| 0 <= i < deltas@.set.len() ==> delta_wf(#[trigger] deltas@.set[i]),
            forall|i: int| 0 <= i < primitives@.len() ==> prim_wf(#[trigger] primitives@[i]@),
        ensures
            final(self).wf(),
            final(target).wf(),
            ({
                let m1 = spec_apply_deltas_upto(old(self)@, deltas@.set, deltas@.set.len() as int);
                let pviews = primitives@.map(|i: int, p: ClippedPrimitive| p@);
                &&& final(self)@ == spec_apply_frees_upto(m1, deltas@.free, deltas@.free.len() as int)
                &&& final(target)@ == spec_draw_prims_upto(
                    old(target)@,
                    pviews,
                    m1,
                    ppp as int,
                    pviews.len() as int,
                )
                &&& errors@ == spec_delta_errors_upto(old(self)@, deltas@.set, deltas@.set.len() as int)
                    + spec_prim_errors_upto(m1, pviews, pviews.len() as int)
            }),
    {
        let ghost m0 = self@;
        let ghost dviews = deltas@.set;
        let mut errors: Vec<PaintError> = Vec::new();

        let nd = deltas.set.len();
        let mut i: usize = 0;
        while i < nd
            invariant
                0 <= i <= nd,
                nd == dviews.len(),
                dviews == deltas@.set,
                forall|k: int| 0 <= k < dviews.len() ==> delta_wf(#[trigger] dviews[k]),
                self.wf(),
                self@ == spec_apply_deltas_upto(m0, dviews, i as int),
                errors@ == spec_delta_errors_upto(m0, dviews, i as int),
            decreases nd - i,
        {
            let d = &deltas.set[i];
            proof {
                assert(d@ == dviews[i as int]);
            }
            match self.apply_delta(d) {
                Ok(()) => {},
                Err(TextureError::UnknownId) => {
                    errors.push(PaintError::UnknownPatchId(d.id));
                },
            }
            i = i + 1;
        }

        let ghost m1 = self@;
        let ghost derrs = errors@;
        let ghost pviews = primitives@.map(|k: int, p: ClippedPrimitive| p@);

        let np = primitives.len();
        let mut j: usize = 0;
        while j < np
            invariant
                0 <= j <= np,
                np == pviews.len(),
                pviews == primitives@.map(|k: int, p: ClippedPrimitive| p@),
                forall|k: int| 0 <= k < primitives@.len() ==> prim_wf(#[trigger] primitives@[k]@),
                self.wf(),
                self@ == m1,
                target.wf(),
                target@ == spec_draw_prims_upto(old(target)@, pviews, m1, ppp as int, j as int),
                errors@ == derrs + spec_prim_errors_upto(m1, pviews, j as int),
                1 <= ppp <= MAX_SCALE,
            decreases np - j,
        {
            let prim = &primitives[j];
            proof {
                assert(prim@ == pviews[j as int]);
                assert(prim_wf(primitives@[j as int]@));
            }
            match self.cache.get(prim.mesh.texture_id) {
                Some(tex) => {
                    draw_mesh(target, tex, &prim.mesh, prim.clip, ppp);
                },
                None => {
                    errors.push(PaintError::UnknownTextureId(prim.mesh.texture_id));
                },
            }
            j = j + 1;
        }

        let nf = deltas.free.len();
        let mut k: usize = 0;
        while k < nf
            invariant
                0 <= k <= nf,
                nf == deltas@.free.len(),
                self.wf(),
                self@ == spec_apply_frees_upto(m1, deltas@.free, k as int),
            decreases nf - k,
        {
            self.free(deltas.free[k]);
            k = k + 1;
        }

        errors
    }

    /// Releases every resource; idempotent: a second call finds and leaves
    /// an empty cache.
    pub fn destroy(&mut self)
        ensures
            final(self)@ == Map::<u64, TexView>::empty(),
            final(self).wf(),
    {
        self.cache = TextureCache::new();
    }
}

} // verus!

