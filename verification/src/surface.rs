//! Surface acquisition and the window-surface facade.
//!
//! At window creation the factory tries to obtain a hardware-accelerated
//! surface first, unless a force-software flag is set; the platform's answer
//! arrives as a `GpuAcquireOutcome`. Any failure falls through to the CPU
//! backend, except under an acceleration policy of Required, where it is a
//! construction error surfaced to the caller. The choice is final for the
//! window's lifetime: a GPU surface lost later is fatal, never a silent
//! fallback. The facade dispatches `resize`, `clear` and `present` to
//! whichever backend is live.

use vstd::prelude::*;
use crate::color::{Color8, spec_premultiply};
use crate::raster::{RasterTarget, RasterView, PixelViewError, spec_blank, spec_clear, spec_pack_pixel, MAX_TARGET_SIDE, RASTER_BYTES_PER_PIXEL};

verus! {

/// The hardware-acceleration policy requested for the window.
#[derive(Clone, Copy, PartialEq, Eq, Structural, Debug)]
pub enum HardwareAcceleration {
    Required,
    Preferred,
    Off,
}

/// The creation-time configuration of a window surface. The force-software
/// flag is an explicit field, not process-wide state, so every call site is
/// deterministic.
#[derive(Clone, Copy, PartialEq, Eq, Structural, Debug)]
pub struct SurfaceConfig {
    pub force_software: bool,
    pub hardware_acceleration: HardwareAcceleration,
    pub vsync: bool,
    pub depth_buffer: u8,
    pub stencil_buffer: u8,
    pub multisampling: u16,
    pub transparent: bool,
}

/// What the pixel-format negotiation asks of the platform, derived from the
/// configuration.
#[derive(Clone, Copy, PartialEq, Eq, Structural, Debug)]
pub struct GpuConfigTemplate {
    /// Required maps to `Some(true)`, Preferred leaves the choice open,
    /// Off maps to `Some(false)`.
    pub prefer_hardware_accelerated: Option<bool>,
    /// Requested only when the configuration asks for more than none;
    /// exact multisampling may still be degraded by the platform.
    pub multisampling: Option<u8>,
    pub depth_size: u8,
    pub stencil_size: u8,
    pub transparency: bool,
    /// Whether the swap chain waits for vertical sync.
    pub swap_interval_wait: bool,
}

/// The acceleration preference handed to pixel-format negotiation.
pub open spec fn spec_accel_preference(policy: HardwareAcceleration) -> Option<bool> {
    match policy {
        HardwareAcceleration::Required => Some(true),
        HardwareAcceleration::Preferred => None,
        HardwareAcceleration::Off => Some(false),
    }
}

/// The full template derived from a configuration.
pub open spec fn spec_config_template(cfg: SurfaceConfig) -> GpuConfigTemplate {
    GpuConfigTemplate {
        prefer_hardware_accelerated: spec_accel_preference(cfg.hardware_acceleration),
        multisampling: if cfg.multisampling > 0 {
            Some(cfg.multisampling as u8)
        } else {
            None
        },
        depth_size: cfg.depth_buffer,
        stencil_size: cfg.stencil_buffer,
        transparency: cfg.transparent,
        swap_interval_wait: cfg.vsync,
    }
}

/// Derives the negotiation template from the configuration. A multisampling
/// request must fit the platform's 8-bit sample count.
pub fn build_config_template(cfg: &SurfaceConfig) -> (t: GpuConfigTemplate)
    requires
        cfg.multisampling <= 255,
    ensures
        t == spec_config_template(*cfg),
{
    GpuConfigTemplate {
        prefer_hardware_accelerated: match cfg.hardware_acceleration {
            HardwareAcceleration::Required => Some(true),
            HardwareAcceleration::Preferred => None,
            HardwareAcceleration::Off => Some(false),
        },
        multisampling: if cfg.multisampling > 0 {
            Some(cfg.multisampling as u8)
        } else {
            None
        },
        depth_size: cfg.depth_buffer,
        stencil_size: cfg.stencil_buffer,
        transparency: cfg.transparent,
        swap_interval_wait: cfg.vsync,
    }
}

/// What the platform found when the framebuffer was wrapped as a render
/// target.
#[derive(Clone, Copy, PartialEq, Eq, Structural, Debug)]
pub struct GpuProbe {
    /// The bound framebuffer object.
    pub fboid: u32,
    /// The largest texture side the device supports.
    pub max_texture_side: u32,
}

/// The outcome of the platform's GPU acquisition attempt: display, pixel
/// format, context, window surface and framebuffer wrap in order. A failure
/// at any step is one outcome; which step failed does not change the
/// fallback.
#[derive(Clone, Copy, PartialEq, Eq, Structural, Debug)]
pub enum GpuAcquireOutcome {
    Acquired(GpuProbe),
    Failed,
}

/// Stencil depth of the wrapped framebuffer.
pub const GPU_STENCIL_BITS: u8 = 8;

/// The GPU-backed surface: a native context, a window-bound swap surface and
/// a raster target wrapping the swap chain's framebuffer. The raster target
/// must be released before the context it was built from; the
/// well-formedness invariant keeps that order.
pub struct GpuSurfaceContext {
    pub width: u32,
    pub height: u32,
    pub fboid: u32,
    pub stencil_bits: u8,
    /// A clear recorded since the last flush, premultiplied.
    pub pending_clear: Option<Color8>,
    pub target_released: bool,
    pub context_released: bool,
}

impl GpuSurfaceContext {
    /// The destruction-ordering invariant: the context is never released
    /// while the raster target still references its framebuffer binding.
    pub open spec fn wf(self) -> bool {
        self.context_released ==> self.target_released
    }

    /// Whether both the raster target and the context are gone.
    pub open spec fn spec_released(self) -> bool {
        self.target_released && self.context_released
    }

    /// Wraps the probed framebuffer as the window's render target.
    pub fn new(probe: GpuProbe, width: u32, height: u32) -> (s: GpuSurfaceContext)
        requires
            width > 0,
            height > 0,
        ensures
            s.width == width,
            s.height == height,
            s.fboid == probe.fboid,
            s.pending_clear is None,
            !s.spec_released(),
            s.wf(),
    {
        GpuSurfaceContext {
            width,
            height,
            fboid: probe.fboid,
            stencil_bits: GPU_STENCIL_BITS,
            pending_clear: None,
            target_released: false,
            context_released: false,
        }
    }

    /// Resizes the swap surface in place; the context stays current, only
    /// the dimensions change. A zero size cannot be given to the platform.
    pub fn resize(&mut self, width: u32, height: u32)
        requires
            old(self).wf(),
            width > 0,
            height > 0,
        ensures
            final(self).width == width,
            final(self).height == height,
            final(self).fboid == old(self).fboid,
            final(self).pending_clear == old(self).pending_clear,
            final(self).spec_released() == old(self).spec_released(),
            final(self).wf(),
    {
        self.width = width;
        self.height = height;
    }

    /// Records a clear of the full render target in the backend's
    /// premultiplied color model; flushed by the next swap.
    pub fn clear(&mut self, color: Color8)
        requires
            old(self).wf(),
        ensures
            final(self).pending_clear == Some(spec_premultiply(color)),
            final(self).width == old(self).width,
            final(self).height == old(self).height,
            final(self).spec_released() == old(self).spec_released(),
            final(self).wf(),
    {
        self.pending_clear = Some(crate::color::premultiply(color));
    }

    /// Flushes pending raster commands toward the framebuffer; the platform
    /// swap that follows is the caller's.
    pub fn flush(&mut self)
        requires
            old(self).wf(),
        ensures
            final(self).pending_clear is None,
            final(self).width == old(self).width,
            final(self).height == old(self).height,
            final(self).spec_released() == old(self).spec_released(),
            final(self).wf(),
    {
        self.pending_clear = None;
    }

    /// Releases the surface's resources in reverse construction order: the
    /// raster target first, the owning context after it. Idempotent.
    pub fn destroy(&mut self)
        requires
            old(self).wf(),
        ensures
            final(self).spec_released(),
            final(self).wf(),
    {
        self.target_released = true;
        self.context_released = true;
    }
}

/// The CPU fallback: an off-screen raster bitmap and the pixel layout the
/// platform presenter bound to the window expects.
pub struct CpuSurfaceContext {
    pub target: RasterTarget,
    pub presenter_bytes_per_pixel: usize,
}

impl CpuSurfaceContext {
    pub open spec fn wf(self) -> bool {
        self.target.wf()
    }

    /// Allocates the off-screen bitmap at the window's current size, for a
    /// presenter with the given packed pixel size.
    pub fn new(width: usize, height: usize, presenter_bytes_per_pixel: usize) -> (s: CpuSurfaceContext)
        requires
            0 < width <= MAX_TARGET_SIDE,
            0 < height <= MAX_TARGET_SIDE,
        ensures
            s.target@ == spec_blank(width as int, height as int),
            s.presenter_bytes_per_pixel == presenter_bytes_per_pixel,
            s.wf(),
    {
        CpuSurfaceContext {
            target: RasterTarget::new(width, height),
            presenter_bytes_per_pixel,
        }
    }

}

/// A construction failure of the window surface.
#[derive(Clone, Copy, PartialEq, Eq, Structural, Debug)]
pub enum CreateError {
    /// GPU acquisition failed while the acceleration policy is Required.
    GpuAcquisitionFailed,
}

/// A presentation failure.
#[derive(Clone, Copy, PartialEq, Eq, Structural, Debug)]
pub enum PresentError {
    /// The bitmap's packed pixel layout does not match what the presenter
    /// expects: a fatal configuration error, caught before any copy.
    PixelLayoutMismatch,
}

/// What one completed frame hands the platform layer: the CPU path carries
/// the packed pixels to blit into the window's buffer; the GPU path asks for
/// a buffer swap through the native context, which may block for vsync.
pub enum FramePacket {
    CpuFrame { pixels: Vec<u32>, width: usize, height: usize },
    GpuSwap,
}

/// Whether the factory attempts GPU acquisition at all.
pub open spec fn spec_should_attempt_gpu(cfg: SurfaceConfig) -> bool {
    !cfg.force_software
}

/// The window surface: exactly one backend is live, chosen once at creation
/// and never switched at runtime.
pub enum WindowSurface {
    Gpu(GpuSurfaceContext),
    Cpu(CpuSurfaceContext),
}

impl WindowSurface {
    pub open spec fn wf(self) -> bool {
        match self {
            WindowSurface::Gpu(g) => g.wf(),
            WindowSurface::Cpu(c) => c.wf(),
        }
    }

    /// Whether the GPU acquisition outcome, under this configuration, is a
    /// construction failure: only a failed attempt under a Required policy.
    pub open spec fn spec_create_fails(cfg: SurfaceConfig, gpu: GpuAcquireOutcome) -> bool {
        &&& spec_should_attempt_gpu(cfg)
        &&& gpu is Failed
        &&& cfg.hardware_acceleration is Required
    }

    /// Chooses the backend once. The GPU backend is taken exactly when it
    /// was attempted and acquired; a failed attempt falls back to CPU unless
    /// acceleration is Required, which surfaces a construction error, never
    /// a silent fallback.
    pub fn create(
        cfg: &SurfaceConfig,
        width: usize,
        height: usize,
        presenter_bytes_per_pixel: usize,
        gpu: GpuAcquireOutcome,
    ) -> (r: Result<WindowSurface, CreateError>)
        requires
            0 < width <= MAX_TARGET_SIDE,
            0 < height <= MAX_TARGET_SIDE,
        ensures
            match r {
                Err(e) => Self::spec_create_fails(*cfg, gpu) && e == CreateError::GpuAcquisitionFailed,
                Ok(s) => {
                    &&& !Self::spec_create_fails(*cfg, gpu)
                    &&& s.wf()
                    &&& (s is Gpu <==> spec_should_attempt_gpu(*cfg) && gpu is Acquired)
                    &&& match s {
                        WindowSurface::Gpu(g) => {
                            &&& g.width == width
                            &&& g.height == height
                            &&& g.fboid == gpu->Acquired_0.fboid
                            &&& !g.spec_released()
                        },
                        WindowSurface::Cpu(c) => {
                            &&& c.target@ == spec_blank(width as int, height as int)
                            &&& c.presenter_bytes_per_pixel == presenter_bytes_per_pixel
                        },
                    }
                },
            },
    {
        if !cfg.force_software {
            match gpu {
                GpuAcquireOutcome::Acquired(probe) => {
                    return Ok(WindowSurface::Gpu(GpuSurfaceContext::new(probe, width as u32, height as u32)));
                },
                GpuAcquireOutcome::Failed => {
                    if matches!(cfg.hardware_acceleration, HardwareAcceleration::Required) {
                        return Err(CreateError::GpuAcquisitionFailed);
                    }
                },
            }
        }
        Ok(WindowSurface::Cpu(CpuSurfaceContext::new(width, height, presenter_bytes_per_pixel)))
    }

    /// Whether the CPU fallback is the live backend.
    pub fn is_cpu(&self) -> (b: bool)
        ensures
            b <==> self is Cpu,
    {
        matches!(self, WindowSurface::Cpu(_))
    }

    /// The drawable software canvas. The GPU backend draws through the
    /// native context instead and has none.
    pub fn canvas(&mut self) -> (r: &mut RasterTarget)
        requires
            *old(self) is Cpu,
        ensures
            *r == (*old(self))->Cpu_0.target,
            *final(self) is Cpu,
            (*final(self))->Cpu_0.target == *final(r),
            (*final(self))->Cpu_0.presenter_bytes_per_pixel == (*old(self))->Cpu_0.presenter_bytes_per_pixel,
    {
        match self {
            WindowSurface::Cpu(c) => &mut c.target,
            WindowSurface::Gpu(_) => unreached(),
        }
    }

    /// Dispatches a resize to the live backend: the GPU path resizes the
    /// swap surface in place, the CPU path reallocates the bitmap.
    pub fn resize(&mut self, width: usize, height: usize)
        requires
            old(self).wf(),
            0 < width <= MAX_TARGET_SIDE,
            0 < height <= MAX_TARGET_SIDE,
        ensures
            final(self).wf(),
            *final(self) is Gpu <==> *old(self) is Gpu,
            match *final(self) {
                WindowSurface::Gpu(g) => {
                    &&& g.width == width
                    &&& g.height == height
                    &&& g.fboid == (*old(self))->Gpu_0.fboid
                    &&& g.spec_released() == (*old(self))->Gpu_0.spec_released()
                },
                WindowSurface::Cpu(c) => {
                    &&& c.target@ == spec_blank(width as int, height as int)
                    &&& c.presenter_bytes_per_pixel == (*old(self))->Cpu_0.presenter_bytes_per_pixel
                },
            },
    {
        match self {
            WindowSurface::Gpu(g) => g.resize(width as u32, height as u32),
            WindowSurface::Cpu(c) => c.target.resize(width, height),
        }
    }

    /// Paints the live backend's full render target with the clear color,
    /// converted to the backend's premultiplied color model.
    pub fn clear(&mut self, color: Color8)
        requires
            old(self).wf(),
        ensures
            final(self).wf(),
            *final(self) is Gpu <==> *old(self) is Gpu,
            match *final(self) {
                WindowSurface::Gpu(g) => {
                    &&& g.pending_clear == Some(spec_premultiply(color))
                    &&& g.width == (*old(self))->Gpu_0.width
                    &&& g.height == (*old(self))->Gpu_0.height
                },
                WindowSurface::Cpu(c) => {
                    &&& c.target@ == spec_clear((*old(self))->Cpu_0.target@, color)
                    &&& c.presenter_bytes_per_pixel == (*old(self))->Cpu_0.presenter_bytes_per_pixel
                },
            },
    {
        match self {
            WindowSurface::Gpu(g) => g.clear(color),
            WindowSurface::Cpu(c) => c.target.clear(color),
        }
    }

    /// Ends the frame. The GPU path flushes pending raster commands and
    /// hands back a swap request for the native context. The CPU path
    /// checks that the bitmap's packed pixel layout matches the presenter
    /// exactly and hands back the packed pixels; a layout mismatch is a
    /// fatal configuration error, not silent corruption.
    pub fn present(&mut self) -> (r: Result<FramePacket, PresentError>)
        requires
            old(self).wf(),
        ensures
            final(self).wf(),
            *final(self) is Gpu <==> *old(self) is Gpu,
            match r {
                Ok(p) => match p {
                    FramePacket::GpuSwap => {
                        &&& *old(self) is Gpu
                        &&& (*final(self))->Gpu_0.pending_clear is None
                    },
                    FramePacket::CpuFrame { pixels, width, height } => {
                        &&& *old(self) is Cpu
                        &&& *final(self) == *old(self)
                        &&& (*old(self))->Cpu_0.presenter_bytes_per_pixel == RASTER_BYTES_PER_PIXEL
                        &&& width == (*old(self))->Cpu_0.target@.width
                        &&& height == (*old(self))->Cpu_0.target@.height
                        &&& pixels@.len() == (*old(self))->Cpu_0.target@.pixels.len()
                        &&& forall|i: int|
                            0 <= i < pixels@.len() ==> pixels@[i] == spec_pack_pixel(
                                #[trigger] (*old(self))->Cpu_0.target@.pixels[i],
                            )
                    },
                },
                Err(PresentError::PixelLayoutMismatch) => {
                    &&& *old(self) is Cpu
                    &&& *final(self) == *old(self)
                    &&& (*old(self))->Cpu_0.presenter_bytes_per_pixel != RASTER_BYTES_PER_PIXEL
                },
            },
    {
        match self {
            WindowSurface::Gpu(g) => {
                g.flush();
                Ok(FramePacket::GpuSwap)
            },
            WindowSurface::Cpu(c) => {
                let width = c.target.width();
                let height = c.target.height();
                match c.target.pixel_view(c.presenter_bytes_per_pixel) {
                    Ok(pixels) => Ok(FramePacket::CpuFrame { pixels, width, height }),
                    Err(PixelViewError::BytesPerPixelMismatch) => Err(PresentError::PixelLayoutMismatch),
                }
            },
        }
    }

    /// Releases the live backend's resources; on the GPU path the raster
    /// target goes before the context it was built from. Idempotent.
    pub fn destroy(&mut self)
        requires
            old(self).wf(),
        ensures
            final(self).wf(),
            *final(self) is Gpu <==> *old(self) is Gpu,
            *final(self) is Gpu ==> (*final(self))->Gpu_0.spec_released(),
    {
        match self {
            WindowSurface::Gpu(g) => g.destroy(),
            WindowSurface::Cpu(_) => {},
        }
    }
}

/// Law: a clear followed by a present with no primitives in between yields a
/// uniform buffer; every packed word equals the clear color converted to the
/// backend's premultiplied pixel format.
pub proof fn lemma_clear_present_uniform(v: RasterView, color: Color8)
    ensures
        forall|i: int|
            0 <= i < spec_clear(v, color).pixels.len() ==> spec_pack_pixel(
                #[trigger] spec_clear(v, color).pixels[i],
            ) == spec_pack_pixel(spec_premultiply(color)),
{
}

} // verus!
