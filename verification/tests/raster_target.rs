use ui_raster::{Color8, RasterTarget};
use ui_raster::raster::PixelViewError;

#[test]
fn new_target_is_transparent() {
    let t = RasterTarget::new(3, 2);
    assert_eq!(t.width(), 3);
    assert_eq!(t.height(), 2);
    for y in 0..2 {
        for x in 0..3 {
            assert_eq!(t.pixel(x, y), Color8 { r: 0, g: 0, b: 0, a: 0 });
        }
    }
}

#[test]
fn clear_premultiplies_color() {
    let mut t = RasterTarget::new(2, 2);
    // Straight (200, 100, 0, 128) premultiplies to (100, 50, 0, 128):
    // floor(200 * 128 / 255) == 100, floor(100 * 128 / 255) == 50.
    t.clear(Color8 { r: 200, g: 100, b: 0, a: 128 });
    assert_eq!(t.pixel(1, 1), Color8 { r: 100, g: 50, b: 0, a: 128 });
}

#[test]
fn clear_opaque_keeps_channels() {
    let mut t = RasterTarget::new(1, 1);
    t.clear(Color8 { r: 10, g: 20, b: 30, a: 255 });
    assert_eq!(t.pixel(0, 0), Color8 { r: 10, g: 20, b: 30, a: 255 });
}

#[test]
fn resize_is_idempotent() {
    // Target dimensions equal the requested size after either one or two
    // calls, and the second call changes nothing at all.
    let mut once = RasterTarget::new(4, 3);
    once.clear(Color8 { r: 1, g: 2, b: 3, a: 255 });
    once.resize(2, 5);
    assert_eq!((once.width(), once.height()), (2, 5));

    let mut twice = RasterTarget::new(4, 3);
    twice.resize(2, 5);
    twice.resize(2, 5);
    assert_eq!((twice.width(), twice.height()), (2, 5));
    for y in 0..5 {
        for x in 0..2 {
            assert_eq!(once.pixel(x, y), twice.pixel(x, y));
            assert_eq!(once.pixel(x, y), Color8 { r: 0, g: 0, b: 0, a: 0 });
        }
    }
}

#[test]
fn pixel_view_packs_low_byte_first() {
    let mut t = RasterTarget::new(2, 1);
    t.clear(Color8 { r: 0, g: 0, b: 255, a: 255 });
    let packed = t.pixel_view(4).unwrap();
    assert_eq!(packed, vec![0xFFFF0000u32, 0xFFFF0000u32]);
}

#[test]
fn pixel_view_rejects_other_layouts() {
    let t = RasterTarget::new(1, 1);
    assert_eq!(t.pixel_view(2), Err(PixelViewError::BytesPerPixelMismatch));
    assert_eq!(t.pixel_view(8), Err(PixelViewError::BytesPerPixelMismatch));
    assert!(t.pixel_view(4).is_ok());
}
