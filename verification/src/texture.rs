//! The texture cache: per-texture-id offscreen bitmaps, kept up to date by
//! incremental deltas from the UI layer.
//!
//! An entry is created by the first full upload for an id, mutated in place by
//! patches, and destroyed only by an explicit free. A patch that names an id
//! without an entry is a protocol violation and is rejected, never silently
//! dropped. Coverage ("font") textures arrive as a single channel and are
//! stored with the coverage broadcast into all four channels, so that a
//! destination-in composite can use any channel as alpha.

use vstd::prelude::*;
use std::collections::HashMap;
use crate::color::Color8;

verus! {

broadcast use vstd::std_specs::hash::group_hash_axioms;

/// Largest width or height of a texture in either direction, the fixed
/// capability reported by `max_texture_side`.
pub const MAX_TEXTURE_SIDE: usize = 65535;

/// How a texture's pixels are composited: full-color images blend
/// source-over, coverage masks blend destination-in.
#[derive(Clone, Copy, PartialEq, Eq, Structural, Debug)]
pub enum TextureKind {
    Color,
    Font,
}

/// The abstract state of one texture: its size, its compositing kind and its
/// pixels in row-major order.
pub struct TexView {
    pub width: int,
    pub height: int,
    pub kind: TextureKind,
    pub pixels: Seq<Color8>,
}

/// One cached texture: an offscreen bitmap in row-major order.
pub struct Texture {
    pub width: usize,
    pub height: usize,
    pub kind: TextureKind,
    pub pixels: Vec<Color8>,
}

impl View for Texture {
    type V = TexView;

    open spec fn view(&self) -> TexView {
        TexView {
            width: self.width as int,
            height: self.height as int,
            kind: self.kind,
            pixels: self.pixels@,
        }
    }
}

/// Well-formedness of a texture: the bitmap has exactly width * height
/// pixels and each side is positive and within the capability limit.
pub open spec fn tex_wf(t: TexView) -> bool {
    &&& t.pixels.len() == t.width * t.height
    &&& 0 < t.width <= MAX_TEXTURE_SIDE
    &&& 0 < t.height <= MAX_TEXTURE_SIDE
}

impl TexView {
    /// The texel at column x, row y.
    pub open spec fn texel(self, x: int, y: int) -> Color8
        recommends
            0 <= x < self.width,
            0 <= y < self.height,
    {
        self.pixels[y * self.width + x]
    }
}

/// The pixel at index i of a bitmap of row width tw after a w * h patch px
/// was written at offset (x, y), clipped to the bitmap.
pub open spec fn patch_pixel(
    orig: Seq<Color8>,
    tw: int,
    x: int,
    y: int,
    w: int,
    h: int,
    px: Seq<Color8>,
    i: int,
) -> Color8 {
    let r = i / tw;
    let c = i % tw;
    if y <= r < y + h && x <= c < x + w {
        px[(r - y) * w + (c - x)]
    } else {
        orig[i]
    }
}

/// A texture after a w * h patch px was written at offset (x, y): same size
/// and kind, the patched rectangle replaced, the rest untouched.
pub open spec fn spec_patch(t: TexView, x: int, y: int, w: int, h: int, px: Seq<Color8>) -> TexView {
    TexView {
        width: t.width,
        height: t.height,
        kind: t.kind,
        pixels: Seq::new(t.pixels.len(), |i: int| patch_pixel(t.pixels, t.width, x, y, w, h, px, i)),
    }
}

/// The cache after a full upload: the entry for id is created or replaced.
pub open spec fn spec_upload_full(m: Map<u64, TexView>, id: u64, t: TexView) -> Map<u64, TexView> {
    m.insert(id, t)
}

/// The cache after a free: the entry for id, if any, is gone.
pub open spec fn spec_free(m: Map<u64, TexView>, id: u64) -> Map<u64, TexView> {
    m.remove(id)
}

/// A rejected texture operation; rendering continues, the caller may log it.
#[derive(Clone, Copy, PartialEq, Eq, Structural, Debug)]
pub enum TextureError {
    /// A patch named an id that has no entry: a UI-layer protocol violation.
    UnknownId,
}

/// Owns the per-id offscreen bitmaps.
pub struct TextureCache {
    map: HashMap<u64, Texture>,
}

impl View for TextureCache {
    type V = Map<u64, TexView>;

    closed spec fn view(&self) -> Map<u64, TexView> {
        self.map@.map_values(|t: Texture| t@)
    }
}

impl TextureCache {
    /// Every entry of a well-formed cache is a well-formed texture.
    pub open spec fn wf(self) -> bool {
        forall|id: u64| self@.contains_key(id) ==> tex_wf(#[trigger] self@[id])
    }

    pub fn new() -> (cache: TextureCache)
        ensures
            cache@ == Map::<u64, TexView>::empty(),
            cache.wf(),
    {
        let cache = TextureCache { map: HashMap::new() };
        proof {
            assert(cache@ =~= Map::<u64, TexView>::empty());
        }
        cache
    }

    pub fn len(&self) -> (n: usize)
        ensures
            n == self@.len(),
    {
        proof {
            assert(self@.dom() =~= self.map@.dom());
        }
        self.map.len()
    }

    pub fn contains(&self, id: u64) -> (b: bool)
        ensures
            b == self@.contains_key(id),
    {
        self.map.contains_key(&id)
    }

    pub fn get(&self, id: u64) -> (t: Option<&Texture>)
        ensures
            match t {
                Some(t) => self@.contains_key(id) && t@ == self@[id],
                None => !self@.contains_key(id),
            },
    {
        self.map.get(&id)
    }

    /// Replaces (or creates) the backing bitmap for id; any previous bitmap
    /// for the id is discarded.
    pub fn upload_full(&mut self, id: u64, width: usize, height: usize, kind: TextureKind, pixels: Vec<Color8>)
        requires
            old(self).wf(),
            pixels@.len() == width * height,
            0 < width <= MAX_TEXTURE_SIDE,
            0 < height <= MAX_TEXTURE_SIDE,
        ensures
            final(self)@ == spec_upload_full(
                old(self)@,
                id,
                (TexView { width: width as int, height: height as int, kind, pixels: pixels@ }),
            ),
            final(self).wf(),
    {
        let ghost tv = TexView { width: width as int, height: height as int, kind, pixels: pixels@ };
        self.map.insert(id, Texture { width, height, kind, pixels });
        proof {
            assert(self@ =~= old(self)@.insert(id, tv));
            assert forall|k: u64| self@.contains_key(k) implies tex_wf(#[trigger] self@[k]) by {
                if k != id {
                    assert(old(self)@.contains_key(k));
                }
            }
        }
    }

    /// Writes a w * h block of pixels into the existing bitmap for id at
    /// offset (x, y), clipped to the bitmap; the entry's size and kind stay.
    /// Rejected if and only if the id has no entry.
    pub fn upload_patch(&mut self, id: u64, x: usize, y: usize, width: usize, height: usize, pixels: &Vec<Color8>)
        -> (result: Result<(), TextureError>)
        requires
            old(self).wf(),
            pixels@.len() == width * height,
            0 < width <= MAX_TEXTURE_SIDE,
            0 < height <= MAX_TEXTURE_SIDE,
            x <= MAX_TEXTURE_SIDE,
            y <= MAX_TEXTURE_SIDE,
        ensures
            final(self).wf(),
            match result {
                Ok(()) => {
                    &&& old(self)@.contains_key(id)
                    &&& final(self)@ == old(self)@.insert(
                        id,
                        spec_patch(old(self)@[id], x as int, y as int, width as int, height as int, pixels@),
                    )
                },
                Err(TextureError::UnknownId) => !old(self)@.contains_key(id) && final(self)@
                    == old(self)@,
            },
    {
        let entry = match self.map.get(&id) {
            Some(t) => t,
            None => {
                return Err(TextureError::UnknownId);
            },
        };
        let tw = entry.width;
        let th = entry.height;
        let kind = entry.kind;
        let n = entry.pixels.len();
        let ghost orig = entry.pixels@;
        let mut out: Vec<Color8> = Vec::with_capacity(n);
        let mut i: usize = 0;
        while i < n
            invariant
                0 <= i <= n,
                out@.len() == i,
                self@.contains_key(id),
                self@[id].width == tw,
                self@[id].height == th,
                self@[id].pixels == orig,
                n == orig.len(),
                tex_wf(self@[id]),
                pixels@.len() == width * height,
                0 < width <= MAX_TEXTURE_SIDE,
                0 < height <= MAX_TEXTURE_SIDE,
                x <= MAX_TEXTURE_SIDE,
                y <= MAX_TEXTURE_SIDE,
                forall|k: int| 0 <= k < i ==> out@[k] == patch_pixel(
                    orig,
                    tw as int,
                    x as int,
                    y as int,
                    width as int,
                    height as int,
                    pixels@,
                    k,
                ),
            decreases n - i,
        {
            let r = i / tw;
            let c = i % tw;
            let value: Color8 = if y <= r && r < y + height && x <= c && c < x + width {
                let pr = r - y;
                let pc = c - x;
                proof {
                    assert(pr * width + pc < width * height && width * height <= 65535 * 65535)
                        by (nonlinear_arith)
                        requires
                            0 <= pr < height,
                            0 <= pc < width,
                            0 < width <= 65535,
                            0 < height <= 65535;
                }
                pixels[pr * width + pc]
            } else {
                self.map.get(&id).unwrap().pixels[i]
            };
            out.push(value);
            i = i + 1;
        }
        let patched = Texture { width: tw, height: th, kind, pixels: out };
        let ghost pv = spec_patch(old(self)@[id], x as int, y as int, width as int, height as int, pixels@);
        proof {
            assert(patched@.pixels =~= pv.pixels);
        }
        self.map.insert(id, patched);
        proof {
            assert(self@ =~= old(self)@.insert(id, pv));
            assert forall|k: u64| self@.contains_key(k) implies tex_wf(#[trigger] self@[k]) by {
                if k != id {
                    assert(old(self)@.contains_key(k));
                }
            }
        }
        Ok(())
    }

    /// Releases the backing bitmap for id; drawing a primitive that still
    /// references the id afterwards is a caller error.
    pub fn free(&mut self, id: u64)
        requires
            old(self).wf(),
        ensures
            final(self)@ == spec_free(old(self)@, id),
            final(self).wf(),
    {
        self.map.remove(&id);
        proof {
            assert(self@ =~= old(self)@.remove(id));
            assert forall|k: u64| self@.contains_key(k) implies tex_wf(#[trigger] self@[k]) by {
                assert(old(self)@.contains_key(k));
            }
        }
    }
}

/// Law: a full upload immediately followed by a free of the same id, with
/// nothing in between, leaves the cache without an entry for that id; by
/// `upload_patch`'s contract a subsequent patch to the id is then rejected.
pub proof fn lemma_upload_then_free_loses_entry(m: Map<u64, TexView>, id: u64, t: TexView)
    ensures
        !spec_free(spec_upload_full(m, id, t), id).contains_key(id),
        spec_free(spec_upload_full(m, id, t), id) =~= m.remove(id),
{
}

} // verus!
