//! Construction of the two matrices a frame needs: a symmetric perspective
//! projection and an orbit-camera look-at view, both in 16.16 fixed point.
//!
//! The look-at matrix is the closed form of the standard construction for
//! this camera: the eye is the vector `(0, 0, distance)` rotated first by
//! pitch about X and then by yaw about Y, the target is the origin and the
//! up vector is +Y.  Writing `sp, cp, sy, cy` for the sine and cosine of
//! pitch and yaw, the rotated basis comes out exactly as
//! side `(cy, 0, -sy)`, up `(sp*sy, cp, sp*cy)`, back `(cp*sy, -sp, cp*cy)`,
//! and the translation column is `(0, 0, -distance)`.

use vstd::prelude::*;
use crate::fixed::{
    div_trunc, fx_mul_spec, lemma_div_trunc_fits_i64, lemma_div_trunc_mag, mul_div, FX_ONE,
};
use crate::viewport::ViewportSize;

verus! {

broadcast use vstd::array::group_array_axioms;

/// Column-major 4 by 4 matrix of fixed-point entries: the entry at row `r`,
/// column `c` is `m[c * 4 + r]`.
pub struct Mat4 {
    pub m: [i64; 16],
}

/// Focal factor of the demo's field of view: cot(pi / 8) = 2.41421...,
/// rounded to 16.16 fixed point (the vertical field of view is pi / 4).
pub const FOCAL_FACTOR: i64 = 158218;

/// Near clip plane of the demo, 1.0 in fixed point.
pub const NEAR_PLANE: i64 = 65536;

/// Far clip plane of the demo, 10.0 in fixed point.
pub const FAR_PLANE: i64 = 10 * 65536;

/// Largest focal factor and aspect ratio the builder accepts (65536.0);
/// keeps every product inside 64-bit range.
pub const MAX_FOCAL: i64 = 0x1_0000_0000;

/// Largest clip-plane value the builder accepts (1024.0); keeps every
/// product inside 64-bit range.
pub const MAX_PLANE: i64 = 0x400_0000;

/// Largest camera distance the view builder accepts; keeps every product
/// inside 64-bit range.
pub const MAX_VIEW_DISTANCE: i64 = 0x1000_0000_0000;

/// `mm` is the symmetric perspective projection for focal factor `f`,
/// aspect ratio `aspect` and clip planes `near < far`:
///
/// ```text
/// [ f/aspect  0   0                      0                    ]
/// [ 0         f   0                      0                    ]
/// [ 0         0   (far+near)/(near-far)  2*far*near/(near-far)]
/// [ 0         0   -1                     0                    ]
/// ```
///
/// written row by row; the entries are stored column-major and the two
/// quotients truncate toward zero after the sign is taken out.
pub open spec fn is_projection_of(mm: Mat4, f: int, aspect: int, near: int, far: int) -> bool {
    &&& mm.m[0] == div_trunc(f * FX_ONE, aspect)
    &&& mm.m[1] == 0
    &&& mm.m[2] == 0
    &&& mm.m[3] == 0
    &&& mm.m[4] == 0
    &&& mm.m[5] == f
    &&& mm.m[6] == 0
    &&& mm.m[7] == 0
    &&& mm.m[8] == 0
    &&& mm.m[9] == 0
    &&& mm.m[10] == -div_trunc((far + near) * FX_ONE, far - near)
    &&& mm.m[11] == -FX_ONE
    &&& mm.m[12] == 0
    &&& mm.m[13] == 0
    &&& mm.m[14] == -div_trunc(2 * far * near, far - near)
    &&& mm.m[15] == 0
}

/// `mm` is the look-at view matrix of the orbit camera whose pitch and yaw
/// have sine and cosine `sp, cp` and `sy, cy`, at distance `d` from the
/// origin: rotated side, up and back rows, and `-d` in the translation.
pub open spec fn is_worldview_of(mm: Mat4, sp: int, cp: int, sy: int, cy: int, d: int) -> bool {
    &&& mm.m[0] == cy
    &&& mm.m[1] == fx_mul_spec(sp, sy)
    &&& mm.m[2] == fx_mul_spec(cp, sy)
    &&& mm.m[3] == 0
    &&& mm.m[4] == 0
    &&& mm.m[5] == cp
    &&& mm.m[6] == -sp
    &&& mm.m[7] == 0
    &&& mm.m[8] == -sy
    &&& mm.m[9] == fx_mul_spec(sp, cy)
    &&& mm.m[10] == fx_mul_spec(cp, cy)
    &&& mm.m[11] == 0
    &&& mm.m[12] == 0
    &&& mm.m[13] == 0
    &&& mm.m[14] == -d
    &&& mm.m[15] == FX_ONE
}

/// Fixed-point product with bounds that keep `mul_div` in range: one factor
/// at most two units in magnitude, the other at most `MAX_VIEW_DISTANCE`.
fn fx_mul(a: i64, b: i64) -> (r: i64)
    requires
        -2 * FX_ONE <= a <= 2 * FX_ONE,
        -MAX_VIEW_DISTANCE <= b <= MAX_VIEW_DISTANCE,
    ensures
        r == fx_mul_spec(a as int, b as int),
        -2 * MAX_VIEW_DISTANCE <= r <= 2 * MAX_VIEW_DISTANCE,
{
    proof {
        assert(-0x2000_0000_0000_0000 <= (a as int) * (b as int) <= 0x2000_0000_0000_0000)
            by (nonlinear_arith)
            requires
                -0x2_0000 <= a <= 0x2_0000,
                -0x1000_0000_0000 <= b <= 0x1000_0000_0000,
        ;
        lemma_div_trunc_fits_i64((a as int) * (b as int), FX_ONE as int);
        lemma_div_trunc_mag((a as int) * (b as int), FX_ONE as int, 0x2000_0000_0000);
    }
    mul_div(a, b, FX_ONE)
}

/// Build the perspective projection matrix of `is_projection_of`.
///
/// The bounds on the inputs are machine limits: they admit every viewing
/// volume a real viewport produces and keep the 64-bit arithmetic exact.
pub fn build_projection(f: i64, aspect: i64, near: i64, far: i64) -> (r: Mat4)
    requires
        0 < aspect <= MAX_FOCAL,
        -MAX_FOCAL <= f <= MAX_FOCAL,
        0 < near < far <= MAX_PLANE,
    ensures
        is_projection_of(r, f as int, aspect as int, near as int, far as int),
{
    proof {
        assert(-0x4000_0000_0000_0000 <= (f as int) * (FX_ONE as int) <= 0x4000_0000_0000_0000)
            by (nonlinear_arith)
            requires
                -0x1_0000_0000 <= f <= 0x1_0000_0000,
        ;
        lemma_div_trunc_fits_i64((f as int) * (FX_ONE as int), aspect as int);
        lemma_div_trunc_fits_i64(((far + near) as int) * (FX_ONE as int), (far - near) as int);
        crate::fixed::lemma_div_trunc_bounds(
            ((far + near) as int) * (FX_ONE as int),
            (far - near) as int,
        );
        assert(0 <= (2 * far as int) * (near as int) <= 0x4000_0000_0000_0000)
            by (nonlinear_arith)
            requires
                0 < near <= 0x400_0000,
                0 < far <= 0x400_0000,
        ;
        lemma_div_trunc_fits_i64((2 * far as int) * (near as int), (far - near) as int);
        crate::fixed::lemma_div_trunc_bounds(
            (2 * far as int) * (near as int),
            (far - near) as int,
        );
    }
    let e00 = mul_div(f, FX_ONE, aspect);
    let e22 = -mul_div(far + near, FX_ONE, far - near);
    let e23 = -mul_div(2 * far, near, far - near);
    Mat4 {
        m: [e00, 0, 0, 0, 0, f, 0, 0, 0, 0, e22, -FX_ONE, 0, 0, e23, 0],
    }
}

/// Per-frame projection of the demo: the fixed field of view and clip
/// planes, with the viewport's aspect ratio pulled into the builder's
/// working range (a degenerate ratio arises only when the viewport is
/// taller than 65536 times its width).
pub fn projection_for_viewport(v: &ViewportSize) -> (r: Mat4)
    requires
        v.wf(),
    ensures
        is_projection_of(
            r,
            FOCAL_FACTOR as int,
            crate::fixed::clamp_spec(
                div_trunc(v.width * FX_ONE, v.height as int),
                1,
                MAX_FOCAL as int,
            ),
            NEAR_PLANE as int,
            FAR_PLANE as int,
        ),
{
    let aspect = v.aspect_ratio();
    let aspect = if aspect < 1 {
        1
    } else if aspect > MAX_FOCAL {
        MAX_FOCAL
    } else {
        aspect
    };
    build_projection(FOCAL_FACTOR, aspect, NEAR_PLANE, FAR_PLANE)
}

/// Eye position of the orbit camera: `(0, 0, d)` rotated by pitch about X,
/// then yaw about Y, so `d * (cp*sy, -sp, cp*cy)` for sine and cosine
/// `sp, cp, sy, cy` of the two angles.
pub fn eye_position(sp: i64, cp: i64, sy: i64, cy: i64, d: i64) -> (r: (i64, i64, i64))
    requires
        -FX_ONE <= sp <= FX_ONE,
        -FX_ONE <= cp <= FX_ONE,
        -FX_ONE <= sy <= FX_ONE,
        -FX_ONE <= cy <= FX_ONE,
        0 <= d <= MAX_VIEW_DISTANCE,
    ensures
        r.0 == fx_mul_spec(fx_mul_spec(cp as int, sy as int), d as int),
        r.1 == -fx_mul_spec(sp as int, d as int),
        r.2 == fx_mul_spec(fx_mul_spec(cp as int, cy as int), d as int),
{
    proof {
        lemma_fx_mul_unit_mag(cp as int, sy as int);
        lemma_fx_mul_unit_mag(cp as int, cy as int);
    }
    let x = fx_mul(fx_mul(cp, sy), d);
    let y = -fx_mul(sp, d);
    let z = fx_mul(fx_mul(cp, cy), d);
    (x, y, z)
}

/// The fixed-point product of two values of magnitude at most one has
/// magnitude at most one.
proof fn lemma_fx_mul_unit_mag(a: int, b: int)
    requires
        -FX_ONE <= a <= FX_ONE,
        -FX_ONE <= b <= FX_ONE,
    ensures
        -FX_ONE <= fx_mul_spec(a, b) <= FX_ONE,
{
    assert(-(FX_ONE as int * FX_ONE as int) <= a * b <= FX_ONE as int * FX_ONE as int)
        by (nonlinear_arith)
        requires
            -0x1_0000 <= a <= 0x1_0000,
            -0x1_0000 <= b <= 0x1_0000,
    ;
    lemma_div_trunc_mag(a * b, FX_ONE as int, FX_ONE as int);
}

/// Build the look-at view matrix of `is_worldview_of` from the sine and
/// cosine of the scaled pitch and yaw and the scaled camera distance.
pub fn build_view(sp: i64, cp: i64, sy: i64, cy: i64, d: i64) -> (r: Mat4)
    requires
        -FX_ONE <= sp <= FX_ONE,
        -FX_ONE <= cp <= FX_ONE,
        -FX_ONE <= sy <= FX_ONE,
        -FX_ONE <= cy <= FX_ONE,
        0 <= d <= MAX_VIEW_DISTANCE,
    ensures
        is_worldview_of(r, sp as int, cp as int, sy as int, cy as int, d as int),
{
    let e01 = fx_mul(sp, sy);
    let e02 = fx_mul(cp, sy);
    let e09 = fx_mul(sp, cy);
    let e10 = fx_mul(cp, cy);
    Mat4 {
        m: [cy, e01, e02, 0, 0, cp, -sp, 0, -sy, e09, e10, 0, 0, 0, -d, FX_ONE],
    }
}

/// Purity of the projection builder: two matrices built from the same
/// inputs hold identical entries.
pub proof fn lemma_projection_deterministic(
    m1: Mat4,
    m2: Mat4,
    f: int,
    aspect: int,
    near: int,
    far: int,
)
    requires
        is_projection_of(m1, f, aspect, near, far),
        is_projection_of(m2, f, aspect, near, far),
    ensures
        m1.m@ == m2.m@,
{
    assert(m1.m@ =~= m2.m@);
}

/// Purity of the view builder: two matrices built from the same inputs
/// hold identical entries.
pub proof fn lemma_worldview_deterministic(
    m1: Mat4,
    m2: Mat4,
    sp: int,
    cp: int,
    sy: int,
    cy: int,
    d: int,
)
    requires
        is_worldview_of(m1, sp, cp, sy, cy, d),
        is_worldview_of(m2, sp, cp, sy, cy, d),
    ensures
        m1.m@ == m2.m@,
{
    assert(m1.m@ =~= m2.m@);
}

} // verus!
