//! Per-frame update rules for the player pose.
//!
//! A pose is a translation plus an orientation quaternion. Three update
//! rules mirror the controller's frame callbacks: key-relative movement,
//! arrow-key yaw, and mouse look. Each rule is stated exactly over the
//! integer model; the trigonometric step quaternions are supplied by the
//! caller as half-angle sine/cosine pairs at the caller's scale, since the
//! model itself is exact integer arithmetic.

use vstd::prelude::*;

use crate::vec3::Vec3;
use crate::vec3::add3;
use crate::vec3::smul3;
use crate::vec3::neg3;
use crate::vec3::lemma_smul3_neg;
use crate::vec3::zero3;
use crate::vec3::norm2;
use crate::vec3::iabs;
use crate::vec3::vabs;
use crate::vec3::vbounded;
use crate::vec3::lemma_mul_bound;
use crate::quat::Quat;
use crate::quat::qmul;
use crate::quat::qnorm2;
use crate::quat::qbounded;
use crate::quat::rot_axis_x;
use crate::quat::rot_axis_z;
use crate::quat::yaw_quat;
use crate::quat::pitch_quat;
use crate::quat::lemma_qmul_fits;
use crate::quat::lemma_rot_axes_orthogonal;
use crate::quat::lemma_rot_axes_norm;

verus! {

/// Movement speed: world units per time unit of `dt`.
pub const SPEED: i64 = 12;

/// Bound on the orientation components accepted by `move_player` and the
/// gizmo geometry; keeps every product of the update far inside `i64`.
pub const MOVE_ROT_BOUND: i64 = 0x10000;

/// Bound on the frame time accepted by `move_player`.
pub const DT_BOUND: i64 = 0x10000;

/// Bound on the translation components accepted by `move_player`.
pub const TRANSLATION_BOUND: i64 = 0x4000_0000_0000_0000;

/// Bound on the orientation components accepted by the yaw and mouse-look
/// updates.
pub const ROT_BOUND: i64 = 0x1000_0000;

/// Bound on the half-angle sine/cosine values accepted by the yaw and
/// mouse-look updates.
pub const TRIG_BOUND: i64 = 0x8000;

/// A player pose: translation and orientation.
#[derive(Clone, Copy, Debug, PartialEq, Eq, Structural)]
pub struct Pose {
    pub translation: Vec3,
    pub rotation: Quat,
}

/// Which of the four movement keys are held this frame.
#[derive(Clone, Copy, Debug, PartialEq, Eq, Structural)]
pub struct MoveKeys {
    pub forward: bool,
    pub back: bool,
    pub left: bool,
    pub right: bool,
}

/// Only the forward key held.
pub open spec fn only_forward() -> MoveKeys {
    MoveKeys { forward: true, back: false, left: false, right: false }
}

/// Only the back key held.
pub open spec fn only_back() -> MoveKeys {
    MoveKeys { forward: false, back: true, left: false, right: false }
}

/// Only the strafe-left key held.
pub open spec fn only_left() -> MoveKeys {
    MoveKeys { forward: false, back: false, left: true, right: false }
}

/// Only the strafe-right key held.
pub open spec fn only_right() -> MoveKeys {
    MoveKeys { forward: false, back: false, left: false, right: true }
}

/// Forward and strafe-right held together: two perpendicular directions.
pub open spec fn forward_and_right() -> MoveKeys {
    MoveKeys { forward: true, back: false, left: false, right: true }
}

/// Net displacement of one movement frame: for each held key, the image of
/// the local Z (forward/back) or X (strafe) axis under the current
/// orientation, scaled by `SPEED * dt`; forward and strafe-left negate.
/// Held keys add up with no diagonal normalization.
pub open spec fn move_delta(q: (int, int, int, int), keys: MoveKeys, dt: int) -> (int, int, int) {
    let fwd = rot_axis_z(q);
    let side = rot_axis_x(q);
    let d1 = if keys.forward {
        neg3(smul3((SPEED as int) * dt, fwd))
    } else {
        zero3()
    };
    let d2 = if keys.back {
        smul3((SPEED as int) * dt, fwd)
    } else {
        zero3()
    };
    let d3 = if keys.left {
        neg3(smul3((SPEED as int) * dt, side))
    } else {
        zero3()
    };
    let d4 = if keys.right {
        smul3((SPEED as int) * dt, side)
    } else {
        zero3()
    };
    add3(add3(d1, d2), add3(d3, d4))
}

/// Orientation after the arrow-key yaw frame: the right arrow composes a
/// yaw step whose half-angle sine is `-s`, then the left arrow one whose
/// half-angle sine is `s`, both with cosine `c`; with the fixed angular
/// rate of 2 radians per time unit, `(s, c)` stand for the sine and cosine
/// of the frame time itself.
pub open spec fn camera_rot(
    q: (int, int, int, int),
    right: bool,
    left: bool,
    s: int,
    c: int,
) -> (int, int, int, int) {
    let q1 = if right {
        qmul(q, yaw_quat(-s, c))
    } else {
        q
    };
    if left {
        qmul(q1, yaw_quat(s, c))
    } else {
        q1
    }
}

/// One queued mouse-motion event, as half-angle sine/cosine pairs: the
/// pitch angle is the negated vertical delta times the frame time, the yaw
/// angle the negated horizontal delta times the frame time.
#[derive(Clone, Copy, Debug, PartialEq, Eq, Structural)]
pub struct LookStep {
    pub pitch_s: i64,
    pub pitch_c: i64,
    pub yaw_s: i64,
    pub yaw_c: i64,
}

/// A mouse event's trigonometric values lie within `TRIG_BOUND`.
pub open spec fn step_bounded(st: LookStep) -> bool {
    &&& -TRIG_BOUND <= st.pitch_s <= TRIG_BOUND
    &&& -TRIG_BOUND <= st.pitch_c <= TRIG_BOUND
    &&& -TRIG_BOUND <= st.yaw_s <= TRIG_BOUND
    &&& -TRIG_BOUND <= st.yaw_c <= TRIG_BOUND
}

/// Orientation after one mouse event: compose the pitch step first, then
/// the yaw step.
pub open spec fn look_step(q: (int, int, int, int), st: LookStep) -> (int, int, int, int) {
    qmul(qmul(q, pitch_quat(st.pitch_s as int, st.pitch_c as int)), yaw_quat(st.yaw_s as int, st.yaw_c as int))
}

/// Orientation after the mouse events from index `i` on, applied in queue
/// order.
pub open spec fn look_fold_from(q: (int, int, int, int), steps: Seq<LookStep>, i: int) -> (int, int, int, int)
    decreases steps.len() - i,
{
    if i < 0 || i >= steps.len() {
        q
    } else {
        look_fold_from(look_step(q, steps[i]), steps, i + 1)
    }
}

/// Orientation after a whole queue of mouse events.
pub open spec fn look_fold(q: (int, int, int, int), steps: Seq<LookStep>) -> (int, int, int, int) {
    look_fold_from(q, steps, 0)
}

/// Every intermediate orientation of the fold stays within `ROT_BOUND` and
/// every event within `TRIG_BOUND`, so the fold can be computed in `i64`.
pub open spec fn look_fold_ok(q: (int, int, int, int), steps: Seq<LookStep>, i: int) -> bool
    decreases steps.len() - i,
{
    if i < 0 || i >= steps.len() {
        true
    } else {
        &&& qbounded(q, ROT_BOUND as int)
        &&& step_bounded(steps[i])
        &&& look_fold_ok(look_step(q, steps[i]), steps, i + 1)
    }
}

/// One frame of key-relative movement: displaces the translation along the
/// current forward and strafe axes for each held key and leaves the
/// orientation untouched. Held keys simply add up, so two perpendicular
/// keys move farther than either alone.
pub fn move_player(t: &mut Pose, keys: &MoveKeys, dt: i64)
    requires
        qbounded(old(t).rotation@, MOVE_ROT_BOUND as int),
        -DT_BOUND <= dt <= DT_BOUND,
        vbounded(old(t).translation@, TRANSLATION_BOUND as int),
    ensures
        final(t).rotation == old(t).rotation,
        final(t).translation@ == add3(old(t).translation@, move_delta(old(t).rotation@, *keys, dt as int)),
{
    let fwd = t.rotation.rotate_z_axis();
    let side = t.rotation.rotate_x_axis();
    proof {
        lemma_rot_axis_bound(t.rotation@);
    }
    let k: i64 = SPEED * dt;
    proof {
        lemma_mul_bound(k as int, fwd@.0, 0x100000, 0x4_0000_0000);
        lemma_mul_bound(k as int, fwd@.1, 0x100000, 0x4_0000_0000);
        lemma_mul_bound(k as int, fwd@.2, 0x100000, 0x4_0000_0000);
        lemma_mul_bound(k as int, side@.0, 0x100000, 0x4_0000_0000);
        lemma_mul_bound(k as int, side@.1, 0x100000, 0x4_0000_0000);
        lemma_mul_bound(k as int, side@.2, 0x100000, 0x4_0000_0000);
    }
    let step_f = Vec3 { x: k * fwd.x, y: k * fwd.y, z: k * fwd.z };
    let step_s = Vec3 { x: k * side.x, y: k * side.y, z: k * side.z };
    if keys.forward {
        t.translation = t.translation.minus(&step_f);
    }
    if keys.back {
        t.translation = t.translation.plus(&step_f);
    }
    if keys.left {
        t.translation = t.translation.minus(&step_s);
    }
    if keys.right {
        t.translation = t.translation.plus(&step_s);
    }
}

/// The image of each movement axis under an orientation within
/// `MOVE_ROT_BOUND` stays within four times that bound squared.
proof fn lemma_rot_axis_bound(q: (int, int, int, int))
    requires
        qbounded(q, MOVE_ROT_BOUND as int),
    ensures
        vbounded(rot_axis_x(q), 0x4_0000_0000),
        vbounded(rot_axis_z(q), 0x4_0000_0000),
{
    let b = MOVE_ROT_BOUND as int;
    lemma_mul_bound(q.0, q.0, b, b);
    lemma_mul_bound(q.1, q.1, b, b);
    lemma_mul_bound(q.2, q.2, b, b);
    lemma_mul_bound(q.3, q.3, b, b);
    lemma_mul_bound(q.0, q.1, b, b);
    lemma_mul_bound(q.0, q.2, b, b);
    lemma_mul_bound(q.1, q.2, b, b);
    lemma_mul_bound(q.3, q.0, b, b);
    lemma_mul_bound(q.3, q.1, b, b);
    lemma_mul_bound(q.3, q.2, b, b);
}

/// One frame of arrow-key yaw: the right arrow composes a yaw step of
/// half-angle sine `-s`, the left arrow one of half-angle sine `s`, in that
/// order; the translation is untouched.
pub fn move_camera(t: &mut Pose, right: bool, left: bool, s: i64, c: i64)
    requires
        qbounded(old(t).rotation@, ROT_BOUND as int),
        -TRIG_BOUND <= s <= TRIG_BOUND,
        -TRIG_BOUND <= c <= TRIG_BOUND,
    ensures
        final(t).translation == old(t).translation,
        final(t).rotation@ == camera_rot(old(t).rotation@, right, left, s as int, c as int),
{
    if right {
        let step = Quat { x: 0, y: -s, z: 0, w: c };
        proof {
            lemma_qmul_fits(t.rotation@, step@, ROT_BOUND as int, TRIG_BOUND as int);
        }
        t.rotation = t.rotation.compose(&step);
    }
    if left {
        let step = Quat { x: 0, y: s, z: 0, w: c };
        proof {
            lemma_qmul_fits(t.rotation@, step@, 0x2000_0000_0000, TRIG_BOUND as int);
        }
        t.rotation = t.rotation.compose(&step);
    }
}

/// One frame of mouse look: consumes the queued pointer-motion events in
/// order and, for each, composes its pitch step and then its yaw step into
/// the orientation; the translation is untouched.
pub fn mouse_move(t: &mut Pose, steps: &Vec<LookStep>)
    requires
        look_fold_ok(old(t).rotation@, steps@, 0),
    ensures
        final(t).translation == old(t).translation,
        final(t).rotation@ == look_fold(old(t).rotation@, steps@),
{
    let ghost orig = t.rotation@;
    let n = steps.len();
    let mut i: usize = 0;
    while i < n
        invariant
            n == steps@.len(),
            i <= n,
            t.translation == old(t).translation,
            look_fold_ok(t.rotation@, steps@, i as int),
            look_fold_from(orig, steps@, 0) == look_fold_from(t.rotation@, steps@, i as int),
        decreases n - i,
    {
        let st = steps[i];
        let ghost before = t.rotation@;
        let pitch = Quat { x: st.pitch_s, y: 0, z: 0, w: st.pitch_c };
        proof {
            lemma_qmul_fits(t.rotation@, pitch@, ROT_BOUND as int, TRIG_BOUND as int);
        }
        t.rotation = t.rotation.compose(&pitch);
        let yaw = Quat { x: 0, y: st.yaw_s, z: 0, w: st.yaw_c };
        proof {
            lemma_qmul_fits(t.rotation@, yaw@, 0x2000_0000_0000, TRIG_BOUND as int);
        }
        t.rotation = t.rotation.compose(&yaw);
        proof {
            assert(t.rotation@ == look_step(before, steps@[i as int]));
        }
        i = i + 1;
    }
}

/// Holding only the forward key displaces the pose by the image of the
/// local Z axis under the current orientation, scaled by `-SPEED * dt`;
/// the back key flips the sign, and the strafe keys do the same along the
/// local X axis.
pub proof fn lemma_single_key_displacement(q: (int, int, int, int), dt: int)
    ensures
        move_delta(q, only_forward(), dt) == smul3(-((SPEED as int) * dt), rot_axis_z(q)),
        move_delta(q, only_back(), dt) == smul3((SPEED as int) * dt, rot_axis_z(q)),
        move_delta(q, only_left(), dt) == smul3(-((SPEED as int) * dt), rot_axis_x(q)),
        move_delta(q, only_right(), dt) == smul3((SPEED as int) * dt, rot_axis_x(q)),
{
    lemma_smul3_neg((SPEED as int) * dt, rot_axis_z(q));
    lemma_smul3_neg((SPEED as int) * dt, rot_axis_x(q));
}

/// Holding the forward and strafe-right keys together gives a displacement
/// whose squared length is exactly twice that of either key alone: the
/// diagonal is not normalized, so it is longer by a factor of the square
/// root of two.
pub proof fn lemma_diagonal_speed(q: (int, int, int, int), dt: int)
    ensures
        norm2(move_delta(q, forward_and_right(), dt)) == 2 * norm2(
            move_delta(q, only_forward(), dt),
        ),
        norm2(move_delta(q, forward_and_right(), dt)) == 2 * norm2(
            move_delta(q, only_right(), dt),
        ),
{
    let k = (SPEED as int) * dt;
    let fwd = rot_axis_z(q);
    let side = rot_axis_x(q);
    lemma_rot_axes_orthogonal(q);
    lemma_rot_axes_norm(q);
    let n = qnorm2(q);
    assert(fwd.0 * side.0 + fwd.1 * side.1 + fwd.2 * side.2 == 0);
    assert(fwd.0 * fwd.0 + fwd.1 * fwd.1 + fwd.2 * fwd.2 == n * n);
    assert(side.0 * side.0 + side.1 * side.1 + side.2 * side.2 == n * n);
    lemma_diag_expand(k, fwd.0, fwd.1, fwd.2, side.0, side.1, side.2);
}

/// Squared length of a scaled difference and of its two parts, over opaque
/// components.
proof fn lemma_diag_expand(k: int, f0: int, f1: int, f2: int, s0: int, s1: int, s2: int)
    requires
        f0 * s0 + f1 * s1 + f2 * s2 == 0,
        f0 * f0 + f1 * f1 + f2 * f2 == s0 * s0 + s1 * s1 + s2 * s2,
    ensures
        (-(k * f0) + k * s0) * (-(k * f0) + k * s0) + (-(k * f1) + k * s1) * (-(k * f1) + k * s1)
            + (-(k * f2) + k * s2) * (-(k * f2) + k * s2) == 2 * ((-(k * f0)) * (-(k * f0)) + (-(k
        * f1)) * (-(k * f1)) + (-(k * f2)) * (-(k * f2))),
        (-(k * f0) + k * s0) * (-(k * f0) + k * s0) + (-(k * f1) + k * s1) * (-(k * f1) + k * s1)
            + (-(k * f2) + k * s2) * (-(k * f2) + k * s2) == 2 * ((k * s0) * (k * s0) + (k * s1) * (
        k * s1) + (k * s2) * (k * s2)),
{
    assert((-(k * f0) + k * s0) * (-(k * f0) + k * s0) == (k * k) * (f0 * f0) - 2 * ((k * k) * (f0
        * s0)) + (k * k) * (s0 * s0)) by (nonlinear_arith);
    assert((-(k * f1) + k * s1) * (-(k * f1) + k * s1) == (k * k) * (f1 * f1) - 2 * ((k * k) * (f1
        * s1)) + (k * k) * (s1 * s1)) by (nonlinear_arith);
    assert((-(k * f2) + k * s2) * (-(k * f2) + k * s2) == (k * k) * (f2 * f2) - 2 * ((k * k) * (f2
        * s2)) + (k * k) * (s2 * s2)) by (nonlinear_arith);
    assert((-(k * f0)) * (-(k * f0)) == (k * k) * (f0 * f0)) by (nonlinear_arith);
    assert((-(k * f1)) * (-(k * f1)) == (k * k) * (f1 * f1)) by (nonlinear_arith);
    assert((-(k * f2)) * (-(k * f2)) == (k * k) * (f2 * f2)) by (nonlinear_arith);
    assert((k * s0) * (k * s0) == (k * k) * (s0 * s0)) by (nonlinear_arith);
    assert((k * s1) * (k * s1) == (k * k) * (s1 * s1)) by (nonlinear_arith);
    assert((k * s2) * (k * s2) == (k * k) * (s2 * s2)) by (nonlinear_arith);
    assert((k * k) * (f0 * s0) + (k * k) * (f1 * s1) + (k * k) * (f2 * s2) == 0) by (nonlinear_arith)
        requires
            f0 * s0 + f1 * s1 + f2 * s2 == 0,
    ;
    assert((k * k) * (f0 * f0) + (k * k) * (f1 * f1) + (k * k) * (f2 * f2) == (k * k) * (s0 * s0)
        + (k * k) * (s1 * s1) + (k * k) * (s2 * s2)) by (nonlinear_arith)
        requires
            f0 * f0 + f1 * f1 + f2 * f2 == s0 * s0 + s1 * s1 + s2 * s2,
    ;
}

/// The right arrow alone composes a yaw step of half-angle sine `-s`; the
/// left arrow alone one of half-angle sine `s`. With `(s, c)` the sine and
/// cosine of the frame time, these are rotations by minus and plus twice
/// the frame time about the vertical axis.
pub proof fn lemma_arrow_yaw(q: (int, int, int, int), s: int, c: int)
    ensures
        camera_rot(q, true, false, s, c) == qmul(q, yaw_quat(-s, c)),
        camera_rot(q, false, true, s, c) == qmul(q, yaw_quat(s, c)),
        camera_rot(q, false, false, s, c) == q,
{
}

/// One mouse event composes exactly two rotations into the orientation: the
/// pitch step first, then the yaw step.
pub proof fn lemma_look_step_composition(q: (int, int, int, int), st: LookStep)
    ensures
        look_fold(q, seq![st]) == qmul(
            qmul(q, pitch_quat(st.pitch_s as int, st.pitch_c as int)),
            yaw_quat(st.yaw_s as int, st.yaw_c as int),
        ),
{
    assert(look_fold_from(q, seq![st], 0) == look_fold_from(look_step(q, seq![st][0]), seq![st], 1));
}

} // verus!
