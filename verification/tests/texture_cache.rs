use ui_raster::{Color8, TextureCache, TextureError, TextureKind};

fn px(r: u8, g: u8, b: u8, a: u8) -> Color8 {
    Color8 { r, g, b, a }
}

#[test]
fn upload_full_creates_entry() {
    let mut cache = TextureCache::new();
    assert_eq!(cache.len(), 0);
    assert!(!cache.contains(1));
    let pixels = vec![px(1, 2, 3, 4), px(5, 6, 7, 8), px(9, 10, 11, 12), px(13, 14, 15, 16)];
    cache.upload_full(1, 2, 2, TextureKind::Color, pixels.clone());
    assert_eq!(cache.len(), 1);
    assert!(cache.contains(1));
    let t = cache.get(1).unwrap();
    assert_eq!(t.width, 2);
    assert_eq!(t.height, 2);
    assert_eq!(t.kind, TextureKind::Color);
    assert_eq!(t.pixels, pixels);
}

#[test]
fn upload_full_replaces_entry() {
    let mut cache = TextureCache::new();
    cache.upload_full(1, 1, 1, TextureKind::Color, vec![px(1, 1, 1, 1)]);
    cache.upload_full(1, 2, 1, TextureKind::Font, vec![px(2, 2, 2, 2), px(3, 3, 3, 3)]);
    assert_eq!(cache.len(), 1);
    let t = cache.get(1).unwrap();
    assert_eq!(t.width, 2);
    assert_eq!(t.kind, TextureKind::Font);
}

#[test]
fn patch_updates_rectangle() {
    let mut cache = TextureCache::new();
    let base = vec![px(0, 0, 0, 255); 4];
    cache.upload_full(7, 2, 2, TextureKind::Color, base);
    let patch = vec![px(255, 255, 255, 255)];
    cache.upload_patch(7, 1, 0, 1, 1, &patch).unwrap();
    let t = cache.get(7).unwrap();
    assert_eq!(t.pixels[0], px(0, 0, 0, 255));
    assert_eq!(t.pixels[1], px(255, 255, 255, 255));
    assert_eq!(t.pixels[2], px(0, 0, 0, 255));
    assert_eq!(t.pixels[3], px(0, 0, 0, 255));
    assert_eq!(t.kind, TextureKind::Color);
}

#[test]
fn patch_clips_to_bitmap() {
    let mut cache = TextureCache::new();
    cache.upload_full(2, 2, 2, TextureKind::Color, vec![px(9, 9, 9, 9); 4]);
    // A 2x1 patch at (1, 1): only its first pixel lands, the rest is clipped.
    let patch = vec![px(1, 1, 1, 1), px(2, 2, 2, 2)];
    cache.upload_patch(2, 1, 1, 2, 1, &patch).unwrap();
    let t = cache.get(2).unwrap();
    assert_eq!(t.pixels[0], px(9, 9, 9, 9));
    assert_eq!(t.pixels[1], px(9, 9, 9, 9));
    assert_eq!(t.pixels[2], px(9, 9, 9, 9));
    assert_eq!(t.pixels[3], px(1, 1, 1, 1));
}

#[test]
fn patch_unknown_id_rejected() {
    let mut cache = TextureCache::new();
    let patch = vec![px(1, 1, 1, 1)];
    assert_eq!(cache.upload_patch(42, 0, 0, 1, 1, &patch), Err(TextureError::UnknownId));
    assert_eq!(cache.len(), 0);
}

#[test]
fn upload_then_free_then_patch_rejected() {
    // A full upload immediately followed by a free of the same id leaves the
    // cache without the entry, and a subsequent patch is rejected.
    let mut cache = TextureCache::new();
    cache.upload_full(3, 1, 1, TextureKind::Color, vec![px(5, 5, 5, 5)]);
    cache.free(3);
    assert!(!cache.contains(3));
    assert_eq!(cache.len(), 0);
    let patch = vec![px(1, 1, 1, 1)];
    assert_eq!(cache.upload_patch(3, 0, 0, 1, 1, &patch), Err(TextureError::UnknownId));
}

#[test]
fn free_absent_id_is_harmless() {
    let mut cache = TextureCache::new();
    cache.upload_full(1, 1, 1, TextureKind::Color, vec![px(5, 5, 5, 5)]);
    cache.free(99);
    assert_eq!(cache.len(), 1);
    assert!(cache.contains(1));
}
