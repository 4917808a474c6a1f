//! The per-triangle affine mapping from texture space to screen space.
//!
//! For a triangle with texture coordinates (u0,v0), (u1,v1), (u2,v2) and
//! screen positions (x0,y0), (x1,y1), (x2,y2), the unique affine transform
//! [a b c; d e f] with (u,v,1) * transform == (x,y) at all three corners is
//! solved from the 3x3 linear system by Cramer's rule. All six entries are
//! kept as exact integer numerators over the common denominator det, the
//! system determinant; det == 0 means the triangle is degenerate in texture
//! space and has no transform.

use vstd::prelude::*;

verus! {

/// Bound on every coordinate handed to the solver; keeps all the
/// intermediate products comfortably inside i128.
pub const AFFINE_COORD_LIMIT: i64 = 16777216;

/// Determinant of the system: the signed doubled area of the triangle in
/// texture space.
pub open spec fn spec_det3(u0: int, v0: int, u1: int, v1: int, u2: int, v2: int) -> int {
    u0 * v1 + v0 * u2 + u1 * v2 - v1 * u2 - v0 * u1 - u0 * v2
}

/// Numerator of the coefficient that multiplies u, for one screen axis with
/// corner values x0, x1, x2.
pub open spec fn spec_coef_u(
    u0: int,
    v0: int,
    u1: int,
    v1: int,
    u2: int,
    v2: int,
    x0: int,
    x1: int,
    x2: int,
) -> int {
    x0 * v1 + v0 * x2 + x1 * v2 - v1 * x2 - v0 * x1 - x0 * v2
}

/// Numerator of the coefficient that multiplies v.
pub open spec fn spec_coef_v(
    u0: int,
    v0: int,
    u1: int,
    v1: int,
    u2: int,
    v2: int,
    x0: int,
    x1: int,
    x2: int,
) -> int {
    u0 * x1 + x0 * u2 + u1 * x2 - x1 * u2 - x0 * u1 - u0 * x2
}

/// Numerator of the translation term: what is left of x0 at corner 0 after
/// the linear part, so the transform maps (u0, v0) onto x0 exactly.
pub open spec fn spec_coef_t(
    u0: int,
    v0: int,
    u1: int,
    v1: int,
    u2: int,
    v2: int,
    x0: int,
    x1: int,
    x2: int,
) -> int {
    x0 * spec_det3(u0, v0, u1, v1, u2, v2) - spec_coef_u(u0, v0, u1, v1, u2, v2, x0, x1, x2) * u0
        - spec_coef_v(u0, v0, u1, v1, u2, v2, x0, x1, x2) * v0
}

/// The solved transform: entry numerators [a b c; d e f] over the common
/// denominator det, so that for each corner i,
/// a * ui + b * vi + c == xi * det and d * ui + e * vi + f == yi * det.
#[derive(Clone, Copy, PartialEq, Eq, Structural, Debug)]
pub struct AffineMap {
    pub a: i128,
    pub b: i128,
    pub c: i128,
    pub d: i128,
    pub e: i128,
    pub f: i128,
    pub det: i128,
}

fn mul2(a: i64, b: i64) -> (r: i128)
    requires
        -AFFINE_COORD_LIMIT <= a <= AFFINE_COORD_LIMIT,
        -AFFINE_COORD_LIMIT <= b <= AFFINE_COORD_LIMIT,
    ensures
        r == a * b,
        -0x1000000000000i128 <= r <= 0x1000000000000i128,
{
    proof {
        assert(-0x1000000000000 <= (a as int) * (b as int) <= 0x1000000000000) by (nonlinear_arith)
            requires
                -16777216 <= a <= 16777216,
                -16777216 <= b <= 16777216;
    }
    (a as i128) * (b as i128)
}

fn det3(u0: i64, v0: i64, u1: i64, v1: i64, u2: i64, v2: i64) -> (r: i128)
    requires
        -AFFINE_COORD_LIMIT <= u0 <= AFFINE_COORD_LIMIT,
        -AFFINE_COORD_LIMIT <= v0 <= AFFINE_COORD_LIMIT,
        -AFFINE_COORD_LIMIT <= u1 <= AFFINE_COORD_LIMIT,
        -AFFINE_COORD_LIMIT <= v1 <= AFFINE_COORD_LIMIT,
        -AFFINE_COORD_LIMIT <= u2 <= AFFINE_COORD_LIMIT,
        -AFFINE_COORD_LIMIT <= v2 <= AFFINE_COORD_LIMIT,
    ensures
        r == spec_det3(u0 as int, v0 as int, u1 as int, v1 as int, u2 as int, v2 as int),
        -0x6000000000000i128 <= r <= 0x6000000000000i128,
{
    mul2(u0, v1) + mul2(v0, u2) + mul2(u1, v2) - mul2(v1, u2) - mul2(v0, u1) - mul2(u0, v2)
}

fn coef_u(u0: i64, v0: i64, u1: i64, v1: i64, u2: i64, v2: i64, x0: i64, x1: i64, x2: i64) -> (r: i128)
    requires
        -AFFINE_COORD_LIMIT <= u0 <= AFFINE_COORD_LIMIT,
        -AFFINE_COORD_LIMIT <= v0 <= AFFINE_COORD_LIMIT,
        -AFFINE_COORD_LIMIT <= u1 <= AFFINE_COORD_LIMIT,
        -AFFINE_COORD_LIMIT <= v1 <= AFFINE_COORD_LIMIT,
        -AFFINE_COORD_LIMIT <= u2 <= AFFINE_COORD_LIMIT,
        -AFFINE_COORD_LIMIT <= v2 <= AFFINE_COORD_LIMIT,
        -AFFINE_COORD_LIMIT <= x0 <= AFFINE_COORD_LIMIT,
        -AFFINE_COORD_LIMIT <= x1 <= AFFINE_COORD_LIMIT,
        -AFFINE_COORD_LIMIT <= x2 <= AFFINE_COORD_LIMIT,
    ensures
        r == spec_coef_u(
            u0 as int,
            v0 as int,
            u1 as int,
            v1 as int,
            u2 as int,
            v2 as int,
            x0 as int,
            x1 as int,
            x2 as int,
        ),
        -0x6000000000000i128 <= r <= 0x6000000000000i128,
{
    mul2(x0, v1) + mul2(v0, x2) + mul2(x1, v2) - mul2(v1, x2) - mul2(v0, x1) - mul2(x0, v2)
}

fn coef_v(u0: i64, v0: i64, u1: i64, v1: i64, u2: i64, v2: i64, x0: i64, x1: i64, x2: i64) -> (r: i128)
    requires
        -AFFINE_COORD_LIMIT <= u0 <= AFFINE_COORD_LIMIT,
        -AFFINE_COORD_LIMIT <= v0 <= AFFINE_COORD_LIMIT,
        -AFFINE_COORD_LIMIT <= u1 <= AFFINE_COORD_LIMIT,
        -AFFINE_COORD_LIMIT <= v1 <= AFFINE_COORD_LIMIT,
        -AFFINE_COORD_LIMIT <= u2 <= AFFINE_COORD_LIMIT,
        -AFFINE_COORD_LIMIT <= v2 <= AFFINE_COORD_LIMIT,
        -AFFINE_COORD_LIMIT <= x0 <= AFFINE_COORD_LIMIT,
        -AFFINE_COORD_LIMIT <= x1 <= AFFINE_COORD_LIMIT,
        -AFFINE_COORD_LIMIT <= x2 <= AFFINE_COORD_LIMIT,
    ensures
        r == spec_coef_v(
            u0 as int,
            v0 as int,
            u1 as int,
            v1 as int,
            u2 as int,
            v2 as int,
            x0 as int,
            x1 as int,
            x2 as int,
        ),
        -0x6000000000000i128 <= r <= 0x6000000000000i128,
{
    mul2(u0, x1) + mul2(x0, u2) + mul2(u1, x2) - mul2(x1, u2) - mul2(x0, u1) - mul2(u0, x2)
}

fn coef_t(u0: i64, v0: i64, u1: i64, v1: i64, u2: i64, v2: i64, x0: i64, x1: i64, x2: i64) -> (r: i128)
    requires
        -AFFINE_COORD_LIMIT <= u0 <= AFFINE_COORD_LIMIT,
        -AFFINE_COORD_LIMIT <= v0 <= AFFINE_COORD_LIMIT,
        -AFFINE_COORD_LIMIT <= u1 <= AFFINE_COORD_LIMIT,
        -AFFINE_COORD_LIMIT <= v1 <= AFFINE_COORD_LIMIT,
        -AFFINE_COORD_LIMIT <= u2 <= AFFINE_COORD_LIMIT,
        -AFFINE_COORD_LIMIT <= v2 <= AFFINE_COORD_LIMIT,
        -AFFINE_COORD_LIMIT <= x0 <= AFFINE_COORD_LIMIT,
        -AFFINE_COORD_LIMIT <= x1 <= AFFINE_COORD_LIMIT,
        -AFFINE_COORD_LIMIT <= x2 <= AFFINE_COORD_LIMIT,
    ensures
        r == spec_coef_t(
            u0 as int,
            v0 as int,
            u1 as int,
            v1 as int,
            u2 as int,
            v2 as int,
            x0 as int,
            x1 as int,
            x2 as int,
        ),
{
    let det = det3(u0, v0, u1, v1, u2, v2);
    let a = coef_u(u0, v0, u1, v1, u2, v2, x0, x1, x2);
    let b = coef_v(u0, v0, u1, v1, u2, v2, x0, x1, x2);
    proof {
        assert(-0x6000000000000000000 <= (x0 as int) * det <= 0x6000000000000000000
            && -0x6000000000000000000 <= a * u0 <= 0x6000000000000000000
            && -0x6000000000000000000 <= b * v0 <= 0x6000000000000000000) by (nonlinear_arith)
            requires
                -16777216 <= x0 <= 16777216,
                -16777216 <= u0 <= 16777216,
                -16777216 <= v0 <= 16777216,
                -0x6000000000000 <= det <= 0x6000000000000,
                -0x6000000000000 <= a <= 0x6000000000000,
                -0x6000000000000 <= b <= 0x6000000000000;
    }
    (x0 as i128) * det - a * (u0 as i128) - b * (v0 as i128)
}

/// Solves the affine transform for one triangle. Returns None exactly when
/// the texture-space determinant is zero, that is when the triangle is
/// degenerate and is to be skipped as a no-op draw.
pub fn solve_affine(
    u0: i64,
    v0: i64,
    u1: i64,
    v1: i64,
    u2: i64,
    v2: i64,
    x0: i64,
    y0: i64,
    x1: i64,
    y1: i64,
    x2: i64,
    y2: i64,
) -> (r: Option<AffineMap>)
    requires
        -AFFINE_COORD_LIMIT <= u0 <= AFFINE_COORD_LIMIT,
        -AFFINE_COORD_LIMIT <= v0 <= AFFINE_COORD_LIMIT,
        -AFFINE_COORD_LIMIT <= u1 <= AFFINE_COORD_LIMIT,
        -AFFINE_COORD_LIMIT <= v1 <= AFFINE_COORD_LIMIT,
        -AFFINE_COORD_LIMIT <= u2 <= AFFINE_COORD_LIMIT,
        -AFFINE_COORD_LIMIT <= v2 <= AFFINE_COORD_LIMIT,
        -AFFINE_COORD_LIMIT <= x0 <= AFFINE_COORD_LIMIT,
        -AFFINE_COORD_LIMIT <= y0 <= AFFINE_COORD_LIMIT,
        -AFFINE_COORD_LIMIT <= x1 <= AFFINE_COORD_LIMIT,
        -AFFINE_COORD_LIMIT <= y1 <= AFFINE_COORD_LIMIT,
        -AFFINE_COORD_LIMIT <= x2 <= AFFINE_COORD_LIMIT,
        -AFFINE_COORD_LIMIT <= y2 <= AFFINE_COORD_LIMIT,
    ensures
        ({
            let det = spec_det3(u0 as int, v0 as int, u1 as int, v1 as int, u2 as int, v2 as int);
            match r {
                None => det == 0,
                Some(m) => {
                    &&& det != 0
                    &&& m.det == det
                    &&& m.a == spec_coef_u(u0 as int, v0 as int, u1 as int, v1 as int, u2 as int, v2 as int, x0 as int, x1 as int, x2 as int)
                    &&& m.b == spec_coef_v(u0 as int, v0 as int, u1 as int, v1 as int, u2 as int, v2 as int, x0 as int, x1 as int, x2 as int)
                    &&& m.c == spec_coef_t(u0 as int, v0 as int, u1 as int, v1 as int, u2 as int, v2 as int, x0 as int, x1 as int, x2 as int)
                    &&& m.d == spec_coef_u(u0 as int, v0 as int, u1 as int, v1 as int, u2 as int, v2 as int, y0 as int, y1 as int, y2 as int)
                    &&& m.e == spec_coef_v(u0 as int, v0 as int, u1 as int, v1 as int, u2 as int, v2 as int, y0 as int, y1 as int, y2 as int)
                    &&& m.f == spec_coef_t(u0 as int, v0 as int, u1 as int, v1 as int, u2 as int, v2 as int, y0 as int, y1 as int, y2 as int)
                },
            }
        }),
{
    let det = det3(u0, v0, u1, v1, u2, v2);
    if det == 0 {
        return None;
    }
    Some(AffineMap {
        a: coef_u(u0, v0, u1, v1, u2, v2, x0, x1, x2),
        b: coef_v(u0, v0, u1, v1, u2, v2, x0, x1, x2),
        c: coef_t(u0, v0, u1, v1, u2, v2, x0, x1, x2),
        d: coef_u(u0, v0, u1, v1, u2, v2, y0, y1, y2),
        e: coef_v(u0, v0, u1, v1, u2, v2, y0, y1, y2),
        f: coef_t(u0, v0, u1, v1, u2, v2, y0, y1, y2),
        det,
    })
}

/// Law: for every non-degenerate triangle the solved transform maps each of
/// the three texture corners exactly onto its screen-space vertex; with the
/// numerators over the denominator det this reads, for one axis,
/// (a * ui + b * vi + c) / det == xi, stated here in multiplied-out exact
/// form. The y axis follows by the same identity with y0, y1, y2.
pub proof fn lemma_affine_maps_corners(
    u0: int,
    v0: int,
    u1: int,
    v1: int,
    u2: int,
    v2: int,
    x0: int,
    x1: int,
    x2: int,
)
    requires
        spec_det3(u0, v0, u1, v1, u2, v2) != 0,
    ensures
        ({
            let a = spec_coef_u(u0, v0, u1, v1, u2, v2, x0, x1, x2);
            let b = spec_coef_v(u0, v0, u1, v1, u2, v2, x0, x1, x2);
            let c = spec_coef_t(u0, v0, u1, v1, u2, v2, x0, x1, x2);
            let det = spec_det3(u0, v0, u1, v1, u2, v2);
            &&& a * u0 + b * v0 + c == x0 * det
            &&& a * u1 + b * v1 + c == x1 * det
            &&& a * u2 + b * v2 + c == x2 * det
        }),
{
    let a = spec_coef_u(u0, v0, u1, v1, u2, v2, x0, x1, x2);
    let b = spec_coef_v(u0, v0, u1, v1, u2, v2, x0, x1, x2);
    let c = spec_coef_t(u0, v0, u1, v1, u2, v2, x0, x1, x2);
    let det = spec_det3(u0, v0, u1, v1, u2, v2);
    // Corner 0 holds by the definition of the translation numerator.
    assert(a * u0 + b * v0 + c == x0 * det);
    // The three Cramer determinants, rewritten over corner differences.
    assert(a == (x1 - x0) * (v2 - v0) - (x2 - x0) * (v1 - v0)) by (nonlinear_arith)
        requires
            a == x0 * v1 + v0 * x2 + x1 * v2 - v1 * x2 - v0 * x1 - x0 * v2;
    assert(b == (u1 - u0) * (x2 - x0) - (u2 - u0) * (x1 - x0)) by (nonlinear_arith)
        requires
            b == u0 * x1 + x0 * u2 + u1 * x2 - x1 * u2 - x0 * u1 - u0 * x2;
    assert(det == (u1 - u0) * (v2 - v0) - (u2 - u0) * (v1 - v0)) by (nonlinear_arith)
        requires
            det == u0 * v1 + v0 * u2 + u1 * v2 - v1 * u2 - v0 * u1 - u0 * v2;
    lemma_corner_diff(u1 - u0, v1 - v0, u2 - u0, v2 - v0, x1 - x0, x2 - x0, a, b, det);
    // Lift the difference identities back to the absolute corners.
    assert(a * (u1 - u0) == a * u1 - a * u0) by (nonlinear_arith);
    assert(b * (v1 - v0) == b * v1 - b * v0) by (nonlinear_arith);
    assert((x1 - x0) * det == x1 * det - x0 * det) by (nonlinear_arith);
    assert(a * (u2 - u0) == a * u2 - a * u0) by (nonlinear_arith);
    assert(b * (v2 - v0) == b * v2 - b * v0) by (nonlinear_arith);
    assert((x2 - x0) * det == x2 * det - x0 * det) by (nonlinear_arith);
}

/// The 2x2 Cramer identity over corner differences: a solved row applied to
/// each difference vector reproduces the matching screen difference, scaled
/// by the common denominator.
#[verifier::rlimit(100)]
proof fn lemma_corner_diff(p: int, q: int, r: int, s: int, g: int, h: int, a: int, b: int, det: int)
    requires
        a == g * s - h * q,
        b == p * h - r * g,
        det == p * s - r * q,
    ensures
        a * p + b * q == g * det,
        a * r + b * s == h * det,
{
    assert(a * p + b * q == g * det) by (nonlinear_arith)
        requires
            a == g * s - h * q,
            b == p * h - r * g,
            det == p * s - r * q;
    assert(a * r + b * s == h * det) by (nonlinear_arith)
        requires
            a == g * s - h * q,
            b == p * h - r * g,
            det == p * s - r * q;
}

} // verus!
