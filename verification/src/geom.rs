//! Fixed-point geometry values shared by the whole pipeline.
//!
//! A world coordinate is stored as an `i64` holding the value multiplied by
//! `SCALE`, so a coordinate of `3.9` world units is the integer `39_000`.
//! Conversions back to whole units truncate toward zero, which is what the
//! spec-level function `tdiv` describes.

use vstd::prelude::*;

verus! {

/// Fixed-point units per world unit: a coordinate or matrix entry stores its
/// value multiplied by this factor.
pub const SCALE: i64 = 10_000;

/// Largest magnitude a well-formed coordinate or matrix entry may have.
/// Keeping values inside this range lets every intermediate product of the
/// pipeline be computed exactly in 128-bit arithmetic.
pub const ENTRY_MAX: i64 = 0x100_0000_0000;

/// Division truncating toward zero, the conversion this pipeline uses when a
/// fixed-point value becomes a whole number of units (in particular a pixel
/// coordinate).  Defined for positive divisors.
pub open spec fn tdiv(n: int, d: int) -> int {
    if n >= 0 {
        n / d
    } else {
        -((-n) / d)
    }
}

/// Truncating an exact multiple recovers the factor: `tdiv(a * d, d) == a`.
pub proof fn lemma_tdiv_exact(a: int, d: int)
    requires
        d >= 1,
    ensures
        tdiv(a * d, d) == a,
{
    if a >= 0 {
        vstd::arithmetic::div_mod::lemma_div_multiples_vanish(a, d);
        assert(a * d == d * a) by (nonlinear_arith);
    } else {
        vstd::arithmetic::div_mod::lemma_div_multiples_vanish(-a, d);
        assert(a * d <= -d && -(a * d) == d * (-a)) by (nonlinear_arith)
            requires
                a < 0,
                d >= 1,
        ;
    }
}

/// A bound on the dividend carries to the truncated quotient:
/// `|n| <= b` implies `|tdiv(n, d)| <= b / d`.
pub proof fn lemma_tdiv_bound(n: int, d: int, b: int)
    requires
        d >= 1,
        0 <= b,
        -b <= n <= b,
    ensures
        -(b / d) <= tdiv(n, d) <= b / d,
{
    if n >= 0 {
        vstd::arithmetic::div_mod::lemma_div_is_ordered(n, b, d);
        vstd::arithmetic::div_mod::lemma_div_pos_is_pos(n, d);
    } else {
        vstd::arithmetic::div_mod::lemma_div_is_ordered(-n, b, d);
        vstd::arithmetic::div_mod::lemma_div_pos_is_pos(-n, d);
    }
}

/// Bounds on two factors bound their product.
pub proof fn lemma_mul_bound(x: int, y: int, bx: int, by: int)
    requires
        -bx <= x <= bx,
        -by <= y <= by,
    ensures
        -(bx * by) <= x * y <= bx * by,
{
    assert(-(bx * by) <= x * y <= bx * by) by (nonlinear_arith)
        requires
            -bx <= x <= bx,
            -by <= y <= by,
    ;
}

/// A point of three fixed-point coordinates.
#[derive(Clone, Copy, PartialEq, Eq, Structural, Debug)]
pub struct Point3 {
    pub x: i64,
    pub y: i64,
    pub z: i64,
}

/// An integer pixel coordinate on the drawing surface.
#[derive(Clone, Copy, PartialEq, Eq, Structural, Debug)]
pub struct Pixel {
    pub x: i32,
    pub y: i32,
}

/// One drawable line between two points.
#[derive(Clone, Copy, PartialEq, Eq, Structural, Debug)]
pub struct Segment {
    pub a: Point3,
    pub b: Point3,
}

/// One line-draw call handed to the drawing surface.
#[derive(Clone, Copy, PartialEq, Eq, Structural, Debug)]
pub struct DrawCmd {
    pub p1: Pixel,
    pub p2: Pixel,
}

impl Point3 {
    /// All three coordinates lie within the pipeline's working range.
    pub open spec fn in_range(self) -> bool {
        &&& -ENTRY_MAX <= self.x <= ENTRY_MAX
        &&& -ENTRY_MAX <= self.y <= ENTRY_MAX
        &&& -ENTRY_MAX <= self.z <= ENTRY_MAX
    }

    /// Builds a point from its three fixed-point coordinates.
    pub fn new(x: i64, y: i64, z: i64) -> (r: Point3)
        ensures
            r == (Point3 { x, y, z }),
    {
        Point3 { x, y, z }
    }

    /// Reports whether the point lies within the pipeline's working range.
    pub fn check_range(&self) -> (b: bool)
        ensures
            b == self.in_range(),
    {
        -ENTRY_MAX <= self.x && self.x <= ENTRY_MAX && -ENTRY_MAX <= self.y && self.y
            <= ENTRY_MAX && -ENTRY_MAX <= self.z && self.z <= ENTRY_MAX
    }
}

/// Failures of the rendering pipeline.
#[derive(Clone, Copy, PartialEq, Eq, Structural, Debug)]
pub enum RenderError {
    /// A triangle of the mesh names a vertex that does not exist.
    MalformedMesh,
    /// A transformed coordinate left the representable range; the affected
    /// segment is skipped for the frame, never drawn with garbage values.
    NumericOverflow,
    /// The drawing surface rejected a call; the frame loop must stop.
    SurfaceFailure,
}

} // verus!
