use ui_raster::{
    Color8, CreateError, FramePacket, GpuAcquireOutcome, GpuProbe, HardwareAcceleration,
    PresentError, SurfaceConfig, WindowSurface,
};
use ui_raster::surface::build_config_template;

fn cfg(force_software: bool, accel: HardwareAcceleration) -> SurfaceConfig {
    SurfaceConfig {
        force_software,
        hardware_acceleration: accel,
        vsync: true,
        depth_buffer: 0,
        stencil_buffer: 0,
        multisampling: 0,
        transparent: false,
    }
}

fn probe() -> GpuAcquireOutcome {
    GpuAcquireOutcome::Acquired(GpuProbe { fboid: 0, max_texture_side: 4096 })
}

#[test]
fn required_policy_failure_is_construction_error() {
    // A simulated acquisition failure under a Required policy is a
    // construction error, never a silent CPU fallback.
    let r = WindowSurface::create(
        &cfg(false, HardwareAcceleration::Required),
        64,
        64,
        4,
        GpuAcquireOutcome::Failed,
    );
    assert!(matches!(r, Err(CreateError::GpuAcquisitionFailed)));
}

#[test]
fn preferred_policy_failure_falls_back_to_cpu() {
    let s = WindowSurface::create(
        &cfg(false, HardwareAcceleration::Preferred),
        64,
        64,
        4,
        GpuAcquireOutcome::Failed,
    )
    .unwrap();
    assert!(s.is_cpu());
}

#[test]
fn off_policy_failure_falls_back_to_cpu() {
    let s = WindowSurface::create(
        &cfg(false, HardwareAcceleration::Off),
        64,
        64,
        4,
        GpuAcquireOutcome::Failed,
    )
    .unwrap();
    assert!(s.is_cpu());
}

#[test]
fn acquisition_success_selects_gpu() {
    let s = WindowSurface::create(&cfg(false, HardwareAcceleration::Preferred), 64, 64, 4, probe())
        .unwrap();
    assert!(!s.is_cpu());
}

#[test]
fn force_software_never_attempts_gpu() {
    // Even a successful probe is ignored when software is forced.
    let s = WindowSurface::create(&cfg(true, HardwareAcceleration::Preferred), 64, 64, 4, probe())
        .unwrap();
    assert!(s.is_cpu());
}

#[test]
fn clear_then_present_is_uniform_clear_color() {
    // A clear followed by a present with no primitives gives a buffer that
    // is uniformly the clear color in the backend's packed pixel format.
    let mut s = WindowSurface::create(
        &cfg(true, HardwareAcceleration::Off),
        3,
        2,
        4,
        GpuAcquireOutcome::Failed,
    )
    .unwrap();
    s.clear(Color8 { r: 10, g: 20, b: 30, a: 255 });
    match s.present().unwrap() {
        FramePacket::CpuFrame { pixels, width, height } => {
            assert_eq!((width, height), (3, 2));
            let word = 10u32 | 20u32 << 8 | 30u32 << 16 | 255u32 << 24;
            assert_eq!(pixels, vec![word; 6]);
        },
        FramePacket::GpuSwap => panic!("software surface must hand back pixels"),
    }
}

#[test]
fn present_layout_mismatch_is_fatal() {
    // A presenter that expects another packed pixel size gets a typed
    // error, not reinterpreted memory.
    let mut s = WindowSurface::create(
        &cfg(true, HardwareAcceleration::Off),
        2,
        2,
        8,
        GpuAcquireOutcome::Failed,
    )
    .unwrap();
    s.clear(Color8 { r: 0, g: 0, b: 0, a: 255 });
    assert_eq!(
        s.present().map(|_| ()),
        Err(PresentError::PixelLayoutMismatch)
    );
}

#[test]
fn resize_reallocates_cpu_bitmap() {
    let mut s = WindowSurface::create(
        &cfg(true, HardwareAcceleration::Off),
        8,
        8,
        4,
        GpuAcquireOutcome::Failed,
    )
    .unwrap();
    s.clear(Color8 { r: 9, g: 9, b: 9, a: 255 });
    s.resize(4, 4);
    match s.present().unwrap() {
        FramePacket::CpuFrame { pixels, width, height } => {
            assert_eq!((width, height), (4, 4));
            // The reallocated bitmap starts transparent again.
            assert_eq!(pixels, vec![0u32; 16]);
        },
        FramePacket::GpuSwap => panic!("software surface must hand back pixels"),
    }
}

#[test]
fn gpu_present_swaps() {
    let mut s = WindowSurface::create(&cfg(false, HardwareAcceleration::Preferred), 64, 64, 4, probe())
        .unwrap();
    s.clear(Color8 { r: 1, g: 2, b: 3, a: 255 });
    assert!(matches!(s.present().unwrap(), FramePacket::GpuSwap));
}

#[test]
fn destroy_is_idempotent() {
    let mut s = WindowSurface::create(&cfg(false, HardwareAcceleration::Preferred), 64, 64, 4, probe())
        .unwrap();
    s.destroy();
    s.destroy();
    assert!(!s.is_cpu());
}

#[test]
fn config_template_maps_policy_and_options() {
    let mut c = cfg(false, HardwareAcceleration::Required);
    c.multisampling = 4;
    c.depth_buffer = 24;
    c.stencil_buffer = 8;
    c.transparent = true;
    let t = build_config_template(&c);
    assert_eq!(t.prefer_hardware_accelerated, Some(true));
    assert_eq!(t.multisampling, Some(4));
    assert_eq!(t.depth_size, 24);
    assert_eq!(t.stencil_size, 8);
    assert!(t.transparency);
    assert!(t.swap_interval_wait);

    let t2 = build_config_template(&cfg(false, HardwareAcceleration::Preferred));
    assert_eq!(t2.prefer_hardware_accelerated, None);
    assert_eq!(t2.multisampling, None);
    assert!(t2.swap_interval_wait);

    let mut c3 = cfg(false, HardwareAcceleration::Off);
    c3.vsync = false;
    let t3 = build_config_template(&c3);
    assert_eq!(t3.prefer_hardware_accelerated, Some(false));
    assert!(!t3.swap_interval_wait);
}
