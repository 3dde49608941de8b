//! Integer 3-vectors and their exact arithmetic.

use vstd::prelude::*;

verus! {

/// A 3-vector with integer components.
///
/// Components are plain `i64` values; callers pick the unit (the motion
/// functions treat one step of `1` as one world unit of the scene).
#[derive(Clone, Copy, Debug, PartialEq, Eq, Structural)]
pub struct Vec3 {
    pub x: i64,
    pub y: i64,
    pub z: i64,
}

impl View for Vec3 {
    type V = (int, int, int);

    open spec fn view(&self) -> (int, int, int) {
        (self.x as int, self.y as int, self.z as int)
    }
}

/// Componentwise sum.
pub open spec fn add3(a: (int, int, int), b: (int, int, int)) -> (int, int, int) {
    (a.0 + b.0, a.1 + b.1, a.2 + b.2)
}

/// Componentwise difference.
pub open spec fn sub3(a: (int, int, int), b: (int, int, int)) -> (int, int, int) {
    (a.0 - b.0, a.1 - b.1, a.2 - b.2)
}

/// Scalar multiple.
pub open spec fn smul3(k: int, v: (int, int, int)) -> (int, int, int) {
    (k * v.0, k * v.1, k * v.2)
}

/// Componentwise negation.
pub open spec fn neg3(v: (int, int, int)) -> (int, int, int) {
    (-v.0, -v.1, -v.2)
}

/// The zero vector.
pub open spec fn zero3() -> (int, int, int) {
    (0, 0, 0)
}

/// A scalar multiple by `-k` is the negated scalar multiple by `k`.
pub proof fn lemma_smul3_neg(k: int, v: (int, int, int))
    ensures
        smul3(-k, v) == neg3(smul3(k, v)),
{
    assert((-k) * v.0 == -(k * v.0)) by (nonlinear_arith);
    assert((-k) * v.1 == -(k * v.1)) by (nonlinear_arith);
    assert((-k) * v.2 == -(k * v.2)) by (nonlinear_arith);
}

/// Dot product.
pub open spec fn dot3(a: (int, int, int), b: (int, int, int)) -> int {
    a.0 * b.0 + a.1 * b.1 + a.2 * b.2
}

/// Squared Euclidean length.
pub open spec fn norm2(v: (int, int, int)) -> int {
    dot3(v, v)
}

/// Absolute value of an integer.
pub open spec fn iabs(x: int) -> int {
    if x < 0 {
        -x
    } else {
        x
    }
}

/// Largest absolute value among the components.
pub open spec fn vabs(v: (int, int, int)) -> int {
    let m = if iabs(v.0) >= iabs(v.1) {
        iabs(v.0)
    } else {
        iabs(v.1)
    };
    if m >= iabs(v.2) {
        m
    } else {
        iabs(v.2)
    }
}

/// Every component lies in `[-b, b]`.
pub open spec fn vbounded(v: (int, int, int), b: int) -> bool {
    &&& -b <= v.0 <= b
    &&& -b <= v.1 <= b
    &&& -b <= v.2 <= b
}

/// `x * y` stays within `[-(mx * my), mx * my]` when the factors are bounded.
pub proof fn lemma_mul_bound(x: int, y: int, mx: int, my: int)
    by (nonlinear_arith)
    requires
        0 <= mx,
        0 <= my,
        -mx <= x <= mx,
        -my <= y <= my,
    ensures
        -(mx * my) <= x * y <= mx * my,
{
}

impl Vec3 {
    /// Componentwise sum; exact, so each component sum must fit in `i64`.
    pub fn plus(&self, o: &Vec3) -> (r: Vec3)
        requires
            i64::MIN <= self@.0 + o@.0 <= i64::MAX,
            i64::MIN <= self@.1 + o@.1 <= i64::MAX,
            i64::MIN <= self@.2 + o@.2 <= i64::MAX,
        ensures
            r@ == add3(self@, o@),
    {
        Vec3 { x: self.x + o.x, y: self.y + o.y, z: self.z + o.z }
    }

    /// Componentwise difference; exact, so each difference must fit in `i64`.
    pub fn minus(&self, o: &Vec3) -> (r: Vec3)
        requires
            i64::MIN <= self@.0 - o@.0 <= i64::MAX,
            i64::MIN <= self@.1 - o@.1 <= i64::MAX,
            i64::MIN <= self@.2 - o@.2 <= i64::MAX,
        ensures
            r@ == sub3(self@, o@),
    {
        Vec3 { x: self.x - o.x, y: self.y - o.y, z: self.z - o.z }
    }

    /// Scalar multiple; exact, so each product must fit in `i64`.
    pub fn scaled(&self, k: i64) -> (r: Vec3)
        requires
            iabs(k as int) * vabs(self@) <= 0x4000_0000_0000_0000,
        ensures
            r@ == smul3(k as int, self@),
    {
        proof {
            lemma_mul_bound(k as int, self@.0, iabs(k as int), vabs(self@));
            lemma_mul_bound(k as int, self@.1, iabs(k as int), vabs(self@));
            lemma_mul_bound(k as int, self@.2, iabs(k as int), vabs(self@));
        }
        Vec3 { x: k * self.x, y: k * self.y, z: k * self.z }
    }
}

} // verus!
