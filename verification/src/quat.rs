//! Integer quaternions: exact composition and rotation of the local axes.
//!
//! A quaternion is stored as four integer components `(x, y, z, w)` with
//! `w` the scalar part, the convention of the usual game-math libraries.
//! Composition is the exact Hamilton product. The image of a local axis
//! under a quaternion is given by the quaternion's integer rotation matrix,
//! which for a unit quaternion is the rotation itself; for a general
//! quaternion every resulting component carries an extra factor of the
//! quaternion's squared norm, so all identities stay exact.

use vstd::prelude::*;

use crate::vec3::Vec3;
use crate::vec3::iabs;
use crate::vec3::lemma_mul_bound;
use crate::vec3::dot3;
use crate::vec3::norm2;

verus! {

/// A quaternion with integer components; `w` is the scalar part.
#[derive(Clone, Copy, Debug, PartialEq, Eq, Structural)]
pub struct Quat {
    pub x: i64,
    pub y: i64,
    pub z: i64,
    pub w: i64,
}

impl View for Quat {
    type V = (int, int, int, int);

    open spec fn view(&self) -> (int, int, int, int) {
        (self.x as int, self.y as int, self.z as int, self.w as int)
    }
}

/// The identity quaternion `(0, 0, 0, 1)`.
pub open spec fn qident() -> (int, int, int, int) {
    (0, 0, 0, 1)
}

/// Hamilton product `a * b`: the rotation that applies `b` first, then `a`.
pub open spec fn qmul(a: (int, int, int, int), b: (int, int, int, int)) -> (int, int, int, int) {
    (
        a.3 * b.0 + a.0 * b.3 + a.1 * b.2 - a.2 * b.1,
        a.3 * b.1 - a.0 * b.2 + a.1 * b.3 + a.2 * b.0,
        a.3 * b.2 + a.0 * b.1 - a.1 * b.0 + a.2 * b.3,
        a.3 * b.3 - a.0 * b.0 - a.1 * b.1 - a.2 * b.2,
    )
}

/// Squared norm of a quaternion.
pub open spec fn qnorm2(q: (int, int, int, int)) -> int {
    q.0 * q.0 + q.1 * q.1 + q.2 * q.2 + q.3 * q.3
}

/// Image of the local X axis under `q`: the first column of the integer
/// rotation matrix of `q`.
pub open spec fn rot_axis_x(q: (int, int, int, int)) -> (int, int, int) {
    (
        q.3 * q.3 + q.0 * q.0 - q.1 * q.1 - q.2 * q.2,
        2 * (q.0 * q.1 + q.3 * q.2),
        2 * (q.0 * q.2 - q.3 * q.1),
    )
}

/// Image of the local Y axis under `q`.
pub open spec fn rot_axis_y(q: (int, int, int, int)) -> (int, int, int) {
    (
        2 * (q.0 * q.1 - q.3 * q.2),
        q.3 * q.3 - q.0 * q.0 + q.1 * q.1 - q.2 * q.2,
        2 * (q.1 * q.2 + q.3 * q.0),
    )
}

/// Image of the local Z axis under `q`.
pub open spec fn rot_axis_z(q: (int, int, int, int)) -> (int, int, int) {
    (
        2 * (q.0 * q.2 + q.3 * q.1),
        2 * (q.1 * q.2 - q.3 * q.0),
        q.3 * q.3 - q.0 * q.0 - q.1 * q.1 + q.2 * q.2,
    )
}

/// Quaternion of a rotation about the vertical (Y) axis whose half-angle
/// has sine `s` and cosine `c`, at the caller's trigonometric scale.
pub open spec fn yaw_quat(s: int, c: int) -> (int, int, int, int) {
    (0, s, 0, c)
}

/// Quaternion of a rotation about the lateral (X) axis whose half-angle
/// has sine `s` and cosine `c`, at the caller's trigonometric scale.
pub open spec fn pitch_quat(s: int, c: int) -> (int, int, int, int) {
    (s, 0, 0, c)
}

/// Largest absolute value among the components.
pub open spec fn qabs(q: (int, int, int, int)) -> int {
    let mxy = if iabs(q.0) >= iabs(q.1) {
        iabs(q.0)
    } else {
        iabs(q.1)
    };
    let mzw = if iabs(q.2) >= iabs(q.3) {
        iabs(q.2)
    } else {
        iabs(q.3)
    };
    if mxy >= mzw {
        mxy
    } else {
        mzw
    }
}

/// Every component lies in `[-b, b]`.
pub open spec fn qbounded(q: (int, int, int, int), b: int) -> bool {
    &&& -b <= q.0 <= b
    &&& -b <= q.1 <= b
    &&& -b <= q.2 <= b
    &&& -b <= q.3 <= b
}

/// The Hamilton product of `a` and `b` can be computed in `i64` without
/// overflow: every partial product stays within a quarter of the range.
pub open spec fn qmul_fits(a: (int, int, int, int), b: (int, int, int, int)) -> bool {
    qabs(a) * qabs(b) <= 0x1000_0000_0000_0000
}

/// Componentwise bounds give `qmul_fits` and bound the product's components.
pub proof fn lemma_qmul_fits(
    a: (int, int, int, int),
    b: (int, int, int, int),
    ab: int,
    bb: int,
)
    requires
        0 <= ab,
        0 <= bb,
        qbounded(a, ab),
        qbounded(b, bb),
        ab * bb <= 0x1000_0000_0000_0000,
    ensures
        qmul_fits(a, b),
        qbounded(qmul(a, b), 4 * (ab * bb)),
{
    assert(0 <= qabs(a) <= ab);
    assert(0 <= qabs(b) <= bb);
    assert(qabs(a) * qabs(b) <= ab * bb) by (nonlinear_arith)
        requires
            0 <= qabs(a) <= ab,
            0 <= qabs(b) <= bb,
    ;
    lemma_mul_bound(a.3, b.0, ab, bb);
    lemma_mul_bound(a.0, b.3, ab, bb);
    lemma_mul_bound(a.1, b.2, ab, bb);
    lemma_mul_bound(a.2, b.1, ab, bb);
    lemma_mul_bound(a.3, b.1, ab, bb);
    lemma_mul_bound(a.0, b.2, ab, bb);
    lemma_mul_bound(a.1, b.3, ab, bb);
    lemma_mul_bound(a.2, b.0, ab, bb);
    lemma_mul_bound(a.3, b.2, ab, bb);
    lemma_mul_bound(a.0, b.1, ab, bb);
    lemma_mul_bound(a.1, b.0, ab, bb);
    lemma_mul_bound(a.2, b.3, ab, bb);
    lemma_mul_bound(a.3, b.3, ab, bb);
    lemma_mul_bound(a.0, b.0, ab, bb);
    lemma_mul_bound(a.1, b.1, ab, bb);
    lemma_mul_bound(a.2, b.2, ab, bb);
}

impl Quat {
    /// The identity rotation.
    pub fn identity() -> (r: Quat)
        ensures
            r@ == qident(),
    {
        Quat { x: 0, y: 0, z: 0, w: 1 }
    }

    /// Exact Hamilton product `self * o`: the result applies `o` first,
    /// then `self`, matching the `*=` composition of the usual game-math
    /// quaternion types.
    pub fn compose(&self, o: &Quat) -> (r: Quat)
        requires
            qmul_fits(self@, o@),
        ensures
            r@ == qmul(self@, o@),
    {
        proof {
            let ma = qabs(self@);
            let mb = qabs(o@);
            lemma_mul_bound(self@.3, o@.0, ma, mb);
            lemma_mul_bound(self@.0, o@.3, ma, mb);
            lemma_mul_bound(self@.1, o@.2, ma, mb);
            lemma_mul_bound(self@.2, o@.1, ma, mb);
            lemma_mul_bound(self@.3, o@.1, ma, mb);
            lemma_mul_bound(self@.0, o@.2, ma, mb);
            lemma_mul_bound(self@.1, o@.3, ma, mb);
            lemma_mul_bound(self@.2, o@.0, ma, mb);
            lemma_mul_bound(self@.3, o@.2, ma, mb);
            lemma_mul_bound(self@.0, o@.1, ma, mb);
            lemma_mul_bound(self@.1, o@.0, ma, mb);
            lemma_mul_bound(self@.2, o@.3, ma, mb);
            lemma_mul_bound(self@.3, o@.3, ma, mb);
            lemma_mul_bound(self@.0, o@.0, ma, mb);
            lemma_mul_bound(self@.1, o@.1, ma, mb);
            lemma_mul_bound(self@.2, o@.2, ma, mb);
        }
        Quat {
            x: self.w * o.x + self.x * o.w + self.y * o.z - self.z * o.y,
            y: self.w * o.y - self.x * o.z + self.y * o.w + self.z * o.x,
            z: self.w * o.z + self.x * o.y - self.y * o.x + self.z * o.w,
            w: self.w * o.w - self.x * o.x - self.y * o.y - self.z * o.z,
        }
    }

    /// Image of the local X axis under this quaternion.
    pub fn rotate_x_axis(&self) -> (r: Vec3)
        requires
            qbounded(self@, 0x4000_0000),
        ensures
            r@ == rot_axis_x(self@),
    {
        proof {
            let b = 0x4000_0000 as int;
            lemma_mul_bound(self@.3, self@.3, b, b);
            lemma_mul_bound(self@.0, self@.0, b, b);
            lemma_mul_bound(self@.1, self@.1, b, b);
            lemma_mul_bound(self@.2, self@.2, b, b);
            lemma_mul_bound(self@.0, self@.1, b, b);
            lemma_mul_bound(self@.3, self@.2, b, b);
            lemma_mul_bound(self@.0, self@.2, b, b);
            lemma_mul_bound(self@.3, self@.1, b, b);
        }
        Vec3 {
            x: self.w * self.w + self.x * self.x - self.y * self.y - self.z * self.z,
            y: 2 * (self.x * self.y + self.w * self.z),
            z: 2 * (self.x * self.z - self.w * self.y),
        }
    }

    /// Image of the local Y axis under this quaternion.
    pub fn rotate_y_axis(&self) -> (r: Vec3)
        requires
            qbounded(self@, 0x4000_0000),
        ensures
            r@ == rot_axis_y(self@),
    {
        proof {
            let b = 0x4000_0000 as int;
            lemma_mul_bound(self@.3, self@.3, b, b);
            lemma_mul_bound(self@.0, self@.0, b, b);
            lemma_mul_bound(self@.1, self@.1, b, b);
            lemma_mul_bound(self@.2, self@.2, b, b);
            lemma_mul_bound(self@.0, self@.1, b, b);
            lemma_mul_bound(self@.3, self@.2, b, b);
            lemma_mul_bound(self@.1, self@.2, b, b);
            lemma_mul_bound(self@.3, self@.0, b, b);
        }
        Vec3 {
            x: 2 * (self.x * self.y - self.w * self.z),
            y: self.w * self.w - self.x * self.x + self.y * self.y - self.z * self.z,
            z: 2 * (self.y * self.z + self.w * self.x),
        }
    }

    /// Image of the local Z axis under this quaternion.
    pub fn rotate_z_axis(&self) -> (r: Vec3)
        requires
            qbounded(self@, 0x4000_0000),
        ensures
            r@ == rot_axis_z(self@),
    {
        proof {
            let b = 0x4000_0000 as int;
            lemma_mul_bound(self@.3, self@.3, b, b);
            lemma_mul_bound(self@.0, self@.0, b, b);
            lemma_mul_bound(self@.1, self@.1, b, b);
            lemma_mul_bound(self@.2, self@.2, b, b);
            lemma_mul_bound(self@.0, self@.2, b, b);
            lemma_mul_bound(self@.3, self@.1, b, b);
            lemma_mul_bound(self@.1, self@.2, b, b);
            lemma_mul_bound(self@.3, self@.0, b, b);
        }
        Vec3 {
            x: 2 * (self.x * self.z + self.w * self.y),
            y: 2 * (self.y * self.z - self.w * self.x),
            z: self.w * self.w - self.x * self.x - self.y * self.y + self.z * self.z,
        }
    }
}

/// The images of the local X and Z axes under one quaternion are orthogonal,
/// exactly: the integer rotation matrix has orthogonal columns.
pub proof fn lemma_rot_axes_orthogonal(q: (int, int, int, int))
    ensures
        dot3(rot_axis_x(q), rot_axis_z(q)) == 0,
        dot3(rot_axis_z(q), rot_axis_x(q)) == 0,
{
    let a = q.3 * q.3;
    let b = q.0 * q.0;
    let c = q.1 * q.1;
    let d = q.2 * q.2;
    let p = q.0 * q.2;
    let r = q.3 * q.1;
    let s = q.0 * q.1;
    let t = q.3 * q.2;
    let u = q.1 * q.2;
    let v = q.3 * q.0;
    assert(a * p == t * v) by (nonlinear_arith)
        requires
            a == q.3 * q.3,
            p == q.0 * q.2,
            t == q.3 * q.2,
            v == q.3 * q.0,
    ;
    assert(b * r == s * v) by (nonlinear_arith)
        requires
            b == q.0 * q.0,
            r == q.3 * q.1,
            s == q.0 * q.1,
            v == q.3 * q.0,
    ;
    assert(c * p == s * u) by (nonlinear_arith)
        requires
            c == q.1 * q.1,
            p == q.0 * q.2,
            s == q.0 * q.1,
            u == q.1 * q.2,
    ;
    assert(d * r == t * u) by (nonlinear_arith)
        requires
            d == q.2 * q.2,
            r == q.3 * q.1,
            t == q.3 * q.2,
            u == q.1 * q.2,
    ;
    lemma_orth_pairs(a, b, c, d, p, r, s, t, u, v);
}

/// Core cancellation behind `lemma_rot_axes_orthogonal`, over opaque pair
/// products.
proof fn lemma_orth_pairs(
    a: int,
    b: int,
    c: int,
    d: int,
    p: int,
    r: int,
    s: int,
    t: int,
    u: int,
    v: int,
)
    requires
        a * p == t * v,
        b * r == s * v,
        c * p == s * u,
        d * r == t * u,
    ensures
        (a + b - c - d) * (2 * (p + r)) + (2 * (s + t)) * (2 * (u - v)) + (2 * (p - r)) * (a - b - c
            + d) == 0,
        (2 * (p + r)) * (a + b - c - d) + (2 * (u - v)) * (2 * (s + t)) + (a - b - c + d) * (2 * (p
            - r)) == 0,
{
    assert((a + b - c - d) * (2 * (p + r)) == 2 * (a * p) + 2 * (a * r) + 2 * (b * p) + 2 * (b * r)
        - 2 * (c * p) - 2 * (c * r) - 2 * (d * p) - 2 * (d * r)) by (nonlinear_arith);
    assert((2 * (s + t)) * (2 * (u - v)) == 4 * (s * u) - 4 * (s * v) + 4 * (t * u) - 4 * (t * v))
        by (nonlinear_arith);
    assert((2 * (p - r)) * (a - b - c + d) == 2 * (a * p) - 2 * (b * p) - 2 * (c * p) + 2 * (d * p)
        - 2 * (a * r) + 2 * (b * r) + 2 * (c * r) - 2 * (d * r)) by (nonlinear_arith);
    assert((2 * (p + r)) * (a + b - c - d) == 2 * (a * p) + 2 * (a * r) + 2 * (b * p) + 2 * (b * r)
        - 2 * (c * p) - 2 * (c * r) - 2 * (d * p) - 2 * (d * r)) by (nonlinear_arith);
    assert((2 * (u - v)) * (2 * (s + t)) == 4 * (s * u) - 4 * (s * v) + 4 * (t * u) - 4 * (t * v))
        by (nonlinear_arith);
    assert((a - b - c + d) * (2 * (p - r)) == 2 * (a * p) - 2 * (b * p) - 2 * (c * p) + 2 * (d * p)
        - 2 * (a * r) + 2 * (b * r) + 2 * (c * r) - 2 * (d * r)) by (nonlinear_arith);
}

/// The images of the local X and Z axes under a quaternion `q` have squared
/// length exactly `qnorm2(q)` squared: the map scales every length by
/// `qnorm2(q)`.
pub proof fn lemma_rot_axes_norm(q: (int, int, int, int))
    ensures
        norm2(rot_axis_x(q)) == qnorm2(q) * qnorm2(q),
        norm2(rot_axis_z(q)) == qnorm2(q) * qnorm2(q),
{
    let a = q.3 * q.3;
    let b = q.0 * q.0;
    let c = q.1 * q.1;
    let d = q.2 * q.2;
    let p = q.0 * q.2;
    let r = q.3 * q.1;
    let s = q.0 * q.1;
    let t = q.3 * q.2;
    let u = q.1 * q.2;
    let v = q.3 * q.0;
    assert(s * s == b * c) by (nonlinear_arith)
        requires
            s == q.0 * q.1,
            b == q.0 * q.0,
            c == q.1 * q.1,
    ;
    assert(t * t == a * d) by (nonlinear_arith)
        requires
            t == q.3 * q.2,
            a == q.3 * q.3,
            d == q.2 * q.2,
    ;
    assert(p * p == b * d) by (nonlinear_arith)
        requires
            p == q.0 * q.2,
            b == q.0 * q.0,
            d == q.2 * q.2,
    ;
    assert(r * r == a * c) by (nonlinear_arith)
        requires
            r == q.3 * q.1,
            a == q.3 * q.3,
            c == q.1 * q.1,
    ;
    assert(s * t == p * r) by (nonlinear_arith)
        requires
            s == q.0 * q.1,
            t == q.3 * q.2,
            p == q.0 * q.2,
            r == q.3 * q.1,
    ;
    assert(u * u == c * d) by (nonlinear_arith)
        requires
            u == q.1 * q.2,
            c == q.1 * q.1,
            d == q.2 * q.2,
    ;
    assert(v * v == a * b) by (nonlinear_arith)
        requires
            v == q.3 * q.0,
            a == q.3 * q.3,
            b == q.0 * q.0,
    ;
    assert(p * r == u * v) by (nonlinear_arith)
        requires
            p == q.0 * q.2,
            r == q.3 * q.1,
            u == q.1 * q.2,
            v == q.3 * q.0,
    ;
    lemma_norm_pairs(a, b, c, d, p, r, s, t, u, v);
}

/// Core cancellation behind `lemma_rot_axes_norm`, over opaque pair
/// products.
proof fn lemma_norm_pairs(
    a: int,
    b: int,
    c: int,
    d: int,
    p: int,
    r: int,
    s: int,
    t: int,
    u: int,
    v: int,
)
    requires
        s * s == b * c,
        t * t == a * d,
        p * p == b * d,
        r * r == a * c,
        s * t == p * r,
        u * u == c * d,
        v * v == a * b,
        p * r == u * v,
    ensures
        (a + b - c - d) * (a + b - c - d) + (2 * (s + t)) * (2 * (s + t)) + (2 * (p - r)) * (2 * (p
            - r)) == (b + c + d + a) * (b + c + d + a),
        (2 * (p + r)) * (2 * (p + r)) + (2 * (u - v)) * (2 * (u - v)) + (a - b - c + d) * (a - b - c
            + d) == (b + c + d + a) * (b + c + d + a),
{
    assert((a + b - c - d) * (a + b - c - d) == a * a + b * b + c * c + d * d + 2 * (a * b) - 2 * (a
        * c) - 2 * (a * d) - 2 * (b * c) - 2 * (b * d) + 2 * (c * d)) by (nonlinear_arith);
    assert((2 * (s + t)) * (2 * (s + t)) == 4 * (s * s) + 8 * (s * t) + 4 * (t * t))
        by (nonlinear_arith);
    assert((2 * (p - r)) * (2 * (p - r)) == 4 * (p * p) - 8 * (p * r) + 4 * (r * r))
        by (nonlinear_arith);
    assert((2 * (p + r)) * (2 * (p + r)) == 4 * (p * p) + 8 * (p * r) + 4 * (r * r))
        by (nonlinear_arith);
    assert((2 * (u - v)) * (2 * (u - v)) == 4 * (u * u) - 8 * (u * v) + 4 * (v * v))
        by (nonlinear_arith);
    assert((a - b - c + d) * (a - b - c + d) == a * a + b * b + c * c + d * d - 2 * (a * b) - 2 * (a
        * c) + 2 * (a * d) + 2 * (b * c) - 2 * (b * d) - 2 * (c * d)) by (nonlinear_arith);
    assert((b + c + d + a) * (b + c + d + a) == a * a + b * b + c * c + d * d + 2 * (a * b) + 2 * (a
        * c) + 2 * (a * d) + 2 * (b * c) + 2 * (b * d) + 2 * (c * d)) by (nonlinear_arith);
}

} // verus!
