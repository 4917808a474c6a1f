use ui_raster::{
    ClipRect, ClippedPrimitive, Color8, FramePacket, GpuAcquireOutcome, HardwareAcceleration,
    Mesh, PaintError, PatchPos, SurfaceConfig, TextureDelta, TexturePayload, TexturesDelta,
    TriangleRasterizer, Vertex, WindowSurface,
};

const RED: u32 = 0xFF0000FF;
const GREEN: u32 = 0xFF00FF00;
const BLUE: u32 = 0xFFFF0000;
const WHITE: u32 = 0xFFFFFFFF;
const BLACK: u32 = 0xFF000000;

fn vtx(x: i32, y: i32, u: u32, v: u32) -> Vertex {
    Vertex { x, y, u, v, color: Color8 { r: 255, g: 255, b: 255, a: 255 } }
}

fn full_clip() -> ClipRect {
    ClipRect { min_x: 0, min_y: 0, max_x: 1024, max_y: 1024 }
}

fn cpu_surface(width: usize, height: usize) -> WindowSurface {
    let cfg = SurfaceConfig {
        force_software: false,
        hardware_acceleration: HardwareAcceleration::Preferred,
        vsync: false,
        depth_buffer: 0,
        stencil_buffer: 0,
        multisampling: 0,
        transparent: false,
    };
    // Acquisition is made to fail: under a non-required policy the factory
    // must select the CPU path.
    let s = WindowSurface::create(&cfg, width, height, 4, GpuAcquireOutcome::Failed).unwrap();
    assert!(s.is_cpu());
    s
}

fn rgba_quad() -> TextureDelta {
    TextureDelta {
        id: 1,
        pos: None,
        width: 2,
        height: 2,
        payload: TexturePayload::ColorRgba(vec![
            Color8 { r: 255, g: 0, b: 0, a: 255 },
            Color8 { r: 0, g: 255, b: 0, a: 255 },
            Color8 { r: 0, g: 0, b: 255, a: 255 },
            Color8 { r: 255, g: 255, b: 255, a: 255 },
        ]),
    }
}

fn present_pixels(s: &mut WindowSurface) -> Vec<u32> {
    match s.present().unwrap() {
        FramePacket::CpuFrame { pixels, .. } => pixels,
        FramePacket::GpuSwap => panic!("software surface must hand back pixels"),
    }
}

#[test]
fn cpu_fallback_textured_triangle() {
    // Upload a 2x2 opaque texture (red, green, blue, white) under id 1 and
    // draw one triangle over a 4x4 canvas with the texture corners on the
    // triangle's corners; GPU acquisition fails and the policy is not
    // Required, so the CPU path runs. The triangular region shows the
    // sampled texture, bounded by the clip path; the rest stays the clear
    // color.
    let mut s = cpu_surface(4, 4);
    s.clear(Color8 { r: 0, g: 0, b: 0, a: 255 });
    let mut rz = TriangleRasterizer::new();
    let deltas = TexturesDelta { set: vec![rgba_quad()], free: vec![] };
    let prims = vec![ClippedPrimitive {
        clip: full_clip(),
        mesh: Mesh {
            vertices: vec![vtx(0, 0, 0, 0), vtx(4, 0, 2, 0), vtx(0, 4, 0, 2)],
            indices: vec![0, 1, 2],
            texture_id: 1,
        },
    }];
    let errors = rz.paint_and_update_textures(s.canvas(), 1, &prims, &deltas);
    assert!(errors.is_empty());
    assert!(rz.has_texture(1));
    let pixels = present_pixels(&mut s);
    let expected = vec![
        RED, RED, GREEN, GREEN,
        RED, RED, GREEN, GREEN,
        BLUE, BLUE, WHITE, BLACK,
        BLUE, BLUE, BLACK, BLACK,
    ];
    assert_eq!(pixels, expected);
}

#[test]
fn pixels_per_point_scales_positions_and_clip() {
    // The same image as the direct test, with logical coordinates halved
    // and a pixels-per-point scale of two.
    let mut s = cpu_surface(4, 4);
    s.clear(Color8 { r: 0, g: 0, b: 0, a: 255 });
    let mut rz = TriangleRasterizer::new();
    let deltas = TexturesDelta { set: vec![rgba_quad()], free: vec![] };
    let prims = vec![ClippedPrimitive {
        clip: ClipRect { min_x: 0, min_y: 0, max_x: 2, max_y: 2 },
        mesh: Mesh {
            vertices: vec![vtx(0, 0, 0, 0), vtx(2, 0, 2, 0), vtx(0, 2, 0, 2)],
            indices: vec![0, 1, 2],
            texture_id: 1,
        },
    }];
    let errors = rz.paint_and_update_textures(s.canvas(), 2, &prims, &deltas);
    assert!(errors.is_empty());
    let pixels = present_pixels(&mut s);
    let expected = vec![
        RED, RED, GREEN, GREEN,
        RED, RED, GREEN, GREEN,
        BLUE, BLUE, WHITE, BLACK,
        BLUE, BLUE, BLACK, BLACK,
    ];
    assert_eq!(pixels, expected);
}

#[test]
fn clip_rect_restricts_painting() {
    let mut s = cpu_surface(4, 4);
    s.clear(Color8 { r: 0, g: 0, b: 0, a: 255 });
    let mut rz = TriangleRasterizer::new();
    let white_texel = TextureDelta {
        id: 5,
        pos: None,
        width: 1,
        height: 1,
        payload: TexturePayload::ColorRgba(vec![Color8 { r: 255, g: 255, b: 255, a: 255 }]),
    };
    let deltas = TexturesDelta { set: vec![white_texel], free: vec![] };
    let prims = vec![ClippedPrimitive {
        clip: ClipRect { min_x: 0, min_y: 0, max_x: 2, max_y: 2 },
        mesh: Mesh {
            vertices: vec![vtx(0, 0, 0, 0), vtx(8, 0, 1, 0), vtx(0, 8, 0, 1)],
            indices: vec![0, 1, 2],
            texture_id: 5,
        },
    }];
    let errors = rz.paint_and_update_textures(s.canvas(), 1, &prims, &deltas);
    assert!(errors.is_empty());
    let pixels = present_pixels(&mut s);
    let expected = vec![
        WHITE, WHITE, BLACK, BLACK,
        WHITE, WHITE, BLACK, BLACK,
        BLACK, BLACK, BLACK, BLACK,
        BLACK, BLACK, BLACK, BLACK,
    ];
    assert_eq!(pixels, expected);
}

#[test]
fn degenerate_triangle_is_skipped() {
    // All texture corners collapse onto one point: the affine system is
    // degenerate and the triangle is a no-op draw, not an error.
    let mut s = cpu_surface(2, 2);
    s.clear(Color8 { r: 0, g: 0, b: 0, a: 255 });
    let mut rz = TriangleRasterizer::new();
    let deltas = TexturesDelta { set: vec![rgba_quad()], free: vec![] };
    let prims = vec![ClippedPrimitive {
        clip: full_clip(),
        mesh: Mesh {
            vertices: vec![vtx(0, 0, 1, 1), vtx(4, 0, 1, 1), vtx(0, 4, 1, 1)],
            indices: vec![0, 1, 2],
            texture_id: 1,
        },
    }];
    let errors = rz.paint_and_update_textures(s.canvas(), 1, &prims, &deltas);
    assert!(errors.is_empty());
    assert_eq!(present_pixels(&mut s), vec![BLACK; 4]);
}

#[test]
fn font_coverage_composites_destination_in() {
    // A coverage mask keeps the previously painted fill in proportion to
    // its coverage: a white fill under coverage 128 leaves (128,128,128,128).
    let mut s = cpu_surface(2, 2);
    s.clear(Color8 { r: 255, g: 0, b: 0, a: 255 });
    let mut rz = TriangleRasterizer::new();
    let mask = TextureDelta {
        id: 2,
        pos: None,
        width: 1,
        height: 1,
        payload: TexturePayload::Coverage(vec![128]),
    };
    let deltas = TexturesDelta { set: vec![mask], free: vec![] };
    let prims = vec![ClippedPrimitive {
        clip: full_clip(),
        mesh: Mesh {
            vertices: vec![vtx(0, 0, 0, 0), vtx(4, 0, 1, 0), vtx(0, 4, 0, 1)],
            indices: vec![0, 1, 2],
            texture_id: 2,
        },
    }];
    let errors = rz.paint_and_update_textures(s.canvas(), 1, &prims, &deltas);
    assert!(errors.is_empty());
    let pixels = present_pixels(&mut s);
    let grey = 128u32 | 128 << 8 | 128 << 16 | 128 << 24;
    // Every pixel of the 2x2 canvas lies inside the triangle and samples
    // texel (0,0) of the 1x1 mask.
    assert_eq!(pixels, vec![grey; 4]);
}

#[test]
fn font_sampling_outside_mask_erases() {
    // Where the mapped texture coordinate leaves the mask, destination-in
    // finds no source and erases the triangle's interior to transparent.
    let mut s = cpu_surface(2, 2);
    s.clear(Color8 { r: 255, g: 0, b: 0, a: 255 });
    let mut rz = TriangleRasterizer::new();
    let mask = TextureDelta {
        id: 2,
        pos: None,
        width: 1,
        height: 1,
        payload: TexturePayload::Coverage(vec![128]),
    };
    let deltas = TexturesDelta { set: vec![mask], free: vec![] };
    let prims = vec![ClippedPrimitive {
        clip: full_clip(),
        mesh: Mesh {
            vertices: vec![vtx(0, 0, 0, 0), vtx(4, 0, 4, 0), vtx(0, 4, 0, 4)],
            indices: vec![0, 1, 2],
            texture_id: 2,
        },
    }];
    let errors = rz.paint_and_update_textures(s.canvas(), 1, &prims, &deltas);
    assert!(errors.is_empty());
    let pixels = present_pixels(&mut s);
    let grey = 128u32 | 128 << 8 | 128 << 16 | 128 << 24;
    // Texel coordinates here equal the pixel coordinates, so only (0,0)
    // stays within the 1x1 mask.
    assert_eq!(pixels, vec![grey, 0, 0, 0]);
}

#[test]
fn unknown_texture_fails_single_primitive() {
    // A primitive that references an id without an upload fails alone; the
    // canvas keeps the clear color and the frame reports the violation.
    let mut s = cpu_surface(2, 2);
    s.clear(Color8 { r: 0, g: 0, b: 0, a: 255 });
    let mut rz = TriangleRasterizer::new();
    let deltas = TexturesDelta { set: vec![], free: vec![] };
    let prims = vec![ClippedPrimitive {
        clip: full_clip(),
        mesh: Mesh {
            vertices: vec![vtx(0, 0, 0, 0), vtx(4, 0, 2, 0), vtx(0, 4, 0, 2)],
            indices: vec![0, 1, 2],
            texture_id: 9,
        },
    }];
    let errors = rz.paint_and_update_textures(s.canvas(), 1, &prims, &deltas);
    assert_eq!(errors, vec![PaintError::UnknownTextureId(9)]);
    assert_eq!(present_pixels(&mut s), vec![BLACK; 4]);
}

#[test]
fn patch_of_unknown_id_reported_and_dropped() {
    let mut s = cpu_surface(2, 2);
    s.clear(Color8 { r: 0, g: 0, b: 0, a: 255 });
    let mut rz = TriangleRasterizer::new();
    let bad_patch = TextureDelta {
        id: 3,
        pos: Some(PatchPos { x: 0, y: 0 }),
        width: 1,
        height: 1,
        payload: TexturePayload::ColorRgba(vec![Color8 { r: 1, g: 1, b: 1, a: 1 }]),
    };
    let deltas = TexturesDelta { set: vec![bad_patch], free: vec![] };
    let errors = rz.paint_and_update_textures(s.canvas(), 1, &vec![], &deltas);
    assert_eq!(errors, vec![PaintError::UnknownPatchId(3)]);
    assert!(!rz.has_texture(3));
}

#[test]
fn frees_are_processed_after_draws() {
    // A texture uploaded and freed in the same frame is still available to
    // the frame's own draws; it is gone afterwards.
    let mut s = cpu_surface(2, 2);
    s.clear(Color8 { r: 0, g: 0, b: 0, a: 255 });
    let mut rz = TriangleRasterizer::new();
    let deltas = TexturesDelta { set: vec![rgba_quad()], free: vec![1] };
    let prims = vec![ClippedPrimitive {
        clip: full_clip(),
        mesh: Mesh {
            vertices: vec![vtx(0, 0, 0, 0), vtx(4, 0, 2, 0), vtx(0, 4, 0, 2)],
            indices: vec![0, 1, 2],
            texture_id: 1,
        },
    }];
    let errors = rz.paint_and_update_textures(s.canvas(), 1, &prims, &deltas);
    assert!(errors.is_empty());
    assert!(!rz.has_texture(1));
    // The draw before the free painted texels, not the clear color.
    assert_eq!(present_pixels(&mut s)[0], RED);
}

#[test]
fn patch_changes_later_draws() {
    let mut s = cpu_surface(2, 2);
    s.clear(Color8 { r: 0, g: 0, b: 0, a: 255 });
    let mut rz = TriangleRasterizer::new();
    // First frame uploads the quad; second frame patches its top-left texel
    // to white and draws.
    let first = TexturesDelta { set: vec![rgba_quad()], free: vec![] };
    rz.paint_and_update_textures(s.canvas(), 1, &vec![], &first);
    let patch = TextureDelta {
        id: 1,
        pos: Some(PatchPos { x: 0, y: 0 }),
        width: 1,
        height: 1,
        payload: TexturePayload::ColorRgba(vec![Color8 { r: 255, g: 255, b: 255, a: 255 }]),
    };
    let second = TexturesDelta { set: vec![patch], free: vec![] };
    let prims = vec![ClippedPrimitive {
        clip: full_clip(),
        mesh: Mesh {
            vertices: vec![vtx(0, 0, 0, 0), vtx(4, 0, 2, 0), vtx(0, 4, 0, 2)],
            indices: vec![0, 1, 2],
            texture_id: 1,
        },
    }];
    let errors = rz.paint_and_update_textures(s.canvas(), 1, &prims, &second);
    assert!(errors.is_empty());
    assert_eq!(present_pixels(&mut s)[0], WHITE);
}

#[test]
fn translated_triangle_samples_correctly() {
    // A triangle away from the origin: the transform's translation entries
    // carry the offset, and texel coordinates follow the pixel minus the
    // offset. Where the mapped coordinate leaves a color texture, the
    // fill of the average vertex color (white here) stays.
    let mut s = cpu_surface(4, 4);
    s.clear(Color8 { r: 0, g: 0, b: 0, a: 255 });
    let mut rz = TriangleRasterizer::new();
    let deltas = TexturesDelta { set: vec![rgba_quad()], free: vec![] };
    let prims = vec![ClippedPrimitive {
        clip: full_clip(),
        mesh: Mesh {
            vertices: vec![vtx(1, 1, 0, 0), vtx(3, 1, 2, 0), vtx(1, 3, 0, 2)],
            indices: vec![0, 1, 2],
            texture_id: 1,
        },
    }];
    let errors = rz.paint_and_update_textures(s.canvas(), 1, &prims, &deltas);
    assert!(errors.is_empty());
    let pixels = present_pixels(&mut s);
    let expected = vec![
        BLACK, BLACK, BLACK, BLACK,
        BLACK, RED, GREEN, WHITE,
        BLACK, BLUE, WHITE, BLACK,
        BLACK, WHITE, BLACK, BLACK,
    ];
    assert_eq!(pixels, expected);
}

#[test]
fn max_texture_side_is_fixed() {
    let rz = TriangleRasterizer::new();
    assert_eq!(rz.max_texture_side(), 65535);
}

#[test]
fn destroy_releases_everything_and_is_idempotent() {
    let mut rz = TriangleRasterizer::new();
    let mut s = cpu_surface(2, 2);
    let deltas = TexturesDelta { set: vec![rgba_quad()], free: vec![] };
    rz.paint_and_update_textures(s.canvas(), 1, &vec![], &deltas);
    assert!(rz.has_texture(1));
    rz.destroy();
    assert!(!rz.has_texture(1));
    rz.destroy();
    assert!(!rz.has_texture(1));
}
