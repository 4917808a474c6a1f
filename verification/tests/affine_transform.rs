use ui_raster::affine::{solve_affine, AffineMap};

#[test]
fn solve_exact_scaling_triangle() {
    // Texture corners (0,0), (2,0), (0,2) onto screen (0,0), (4,0), (0,4):
    // a uniform scale by two. Numerators over det == 4.
    let m = solve_affine(0, 0, 2, 0, 0, 2, 0, 0, 4, 0, 0, 4).unwrap();
    assert_eq!(
        m,
        AffineMap { a: 8, b: 0, c: 0, d: 0, e: 8, f: 0, det: 4 }
    );
}

#[test]
fn solve_translation() {
    // Same triangle, screen shifted by (10, 20): the translation lands in
    // the c and f entries.
    let m = solve_affine(0, 0, 2, 0, 0, 2, 10, 20, 14, 20, 10, 24).unwrap();
    assert_eq!(m.det, 4);
    assert_eq!(m.a, 8);
    assert_eq!(m.b, 0);
    assert_eq!(m.c, 40);
    assert_eq!(m.d, 0);
    assert_eq!(m.e, 8);
    assert_eq!(m.f, 80);
}

#[test]
fn transform_maps_corners_exactly() {
    // The round-trip property on concrete corners: applying the solved row
    // to each texture corner reproduces the screen coordinate, scaled by
    // det.
    let (u, v, x, y) = ([3i64, 9, 5], [2i64, 4, 11], [7i64, 13, 2], [1i64, 8, 20]);
    let m = solve_affine(u[0], v[0], u[1], v[1], u[2], v[2], x[0], y[0], x[1], y[1], x[2], y[2])
        .unwrap();
    for i in 0..3 {
        assert_eq!(m.a * u[i] as i128 + m.b * v[i] as i128 + m.c, x[i] as i128 * m.det);
        assert_eq!(m.d * u[i] as i128 + m.e * v[i] as i128 + m.f, y[i] as i128 * m.det);
    }
}

#[test]
fn degenerate_texture_triangle_has_no_transform() {
    // All three texture corners on one point: determinant zero, no
    // transform.
    assert!(solve_affine(1, 1, 1, 1, 1, 1, 0, 0, 4, 0, 0, 4).is_none());
    // Collinear texture corners degenerate too.
    assert!(solve_affine(0, 0, 1, 1, 2, 2, 0, 0, 4, 0, 0, 4).is_none());
}
