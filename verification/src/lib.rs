//! Rendering backend for an immediate-mode GUI toolkit.
//!
//! Each frame, a UI layer hands this library a list of clipped triangle-mesh
//! primitives and a set of texture deltas; the library applies the deltas to a
//! texture cache, rasterizes the triangles onto a raster target, and prepares
//! the target's pixels for presentation to a platform window. A surface
//! factory chooses once, at window creation, between a GPU-backed surface and
//! a CPU fallback, honoring a hardware-acceleration policy.

pub mod affine;
pub mod color;
pub mod frame;
pub mod painter;
pub mod raster;
pub mod rasterizer;
pub mod surface;
pub mod texture;

pub use color::Color8;
pub use painter::{TriangleRasterizer, TextureDelta, TexturesDelta, TexturePayload, PatchPos, PaintError};
pub use rasterizer::{Vertex, Mesh, ClippedPrimitive, ClipRect};
pub use raster::RasterTarget;
pub use surface::{WindowSurface, SurfaceConfig, HardwareAcceleration, GpuAcquireOutcome, GpuProbe, FramePacket, CreateError, PresentError};
pub use texture::{TextureCache, Texture, TextureKind, TextureError};
