//! Debug-draw geometry: the orientation arrow, the axis rays, and the
//! forced depth bias of the gizmo configurations.

use vstd::prelude::*;

use crate::vec3::Vec3;
use crate::vec3::add3;
use crate::vec3::smul3;
use crate::vec3::vbounded;
use crate::vec3::lemma_mul_bound;
use crate::quat::qbounded;
use crate::quat::rot_axis_x;
use crate::quat::rot_axis_y;
use crate::quat::rot_axis_z;
use crate::motion::Pose;
use crate::motion::MOVE_ROT_BOUND;
use crate::motion::TRANSLATION_BOUND;

verus! {

/// The fixed colors of the debug overlay.
#[derive(Clone, Copy, Debug, PartialEq, Eq, Structural)]
pub enum GizmoColor {
    Yellow,
    Red,
    Green,
    Blue,
}

/// A ray from an origin along a direction, with a fixed color.
#[derive(Clone, Copy, Debug, PartialEq, Eq, Structural)]
pub struct DebugRay {
    pub origin: Vec3,
    pub dir: Vec3,
    pub color: GizmoColor,
}

/// The debug overlay of one tagged entity: one orientation arrow and one
/// ray per local axis.
#[derive(Clone, Copy, Debug, PartialEq, Eq, Structural)]
pub struct DebugDraw {
    pub arrow_start: Vec3,
    pub arrow_end: Vec3,
    pub arrow_color: GizmoColor,
    pub axis_x: DebugRay,
    pub axis_y: DebugRay,
    pub axis_z: DebugRay,
}

/// Geometry drawn for one debug-tagged pose: a yellow arrow from the
/// translation to the point two forward units behind it (the image of the
/// local Z axis scaled by minus two), and red, green and blue rays along
/// the images of the local X, Y and Z axes.
pub fn render_gizmos(t: &Pose) -> (d: DebugDraw)
    requires
        qbounded(t.rotation@, MOVE_ROT_BOUND as int),
        vbounded(t.translation@, TRANSLATION_BOUND as int),
    ensures
        d.arrow_start == t.translation,
        d.arrow_end@ == add3(t.translation@, smul3(-2, rot_axis_z(t.rotation@))),
        d.arrow_color == GizmoColor::Yellow,
        d.axis_x.origin == t.translation,
        d.axis_x.dir@ == rot_axis_x(t.rotation@),
        d.axis_x.color == GizmoColor::Red,
        d.axis_y.origin == t.translation,
        d.axis_y.dir@ == rot_axis_y(t.rotation@),
        d.axis_y.color == GizmoColor::Green,
        d.axis_z.origin == t.translation,
        d.axis_z.dir@ == rot_axis_z(t.rotation@),
        d.axis_z.color == GizmoColor::Blue,
{
    let dx = t.rotation.rotate_x_axis();
    let dy = t.rotation.rotate_y_axis();
    let dz = t.rotation.rotate_z_axis();
    proof {
        lemma_mul_bound(t.rotation@.0, t.rotation@.0, 0x10000, 0x10000);
        lemma_mul_bound(t.rotation@.1, t.rotation@.1, 0x10000, 0x10000);
        lemma_mul_bound(t.rotation@.2, t.rotation@.2, 0x10000, 0x10000);
        lemma_mul_bound(t.rotation@.3, t.rotation@.3, 0x10000, 0x10000);
        lemma_mul_bound(t.rotation@.0, t.rotation@.2, 0x10000, 0x10000);
        lemma_mul_bound(t.rotation@.3, t.rotation@.1, 0x10000, 0x10000);
        lemma_mul_bound(t.rotation@.1, t.rotation@.2, 0x10000, 0x10000);
        lemma_mul_bound(t.rotation@.3, t.rotation@.0, 0x10000, 0x10000);
    }
    let back = dz.scaled(-2);
    let arrow_end = t.translation.plus(&back);
    DebugDraw {
        arrow_start: t.translation,
        arrow_end,
        arrow_color: GizmoColor::Yellow,
        axis_x: DebugRay { origin: t.translation, dir: dx, color: GizmoColor::Red },
        axis_y: DebugRay { origin: t.translation, dir: dy, color: GizmoColor::Green },
        axis_z: DebugRay { origin: t.translation, dir: dz, color: GizmoColor::Blue },
    }
}

/// One named gizmo configuration group; only its depth bias matters here.
#[derive(Clone, Copy, Debug, PartialEq, Eq, Structural)]
pub struct GizmoSettings {
    pub depth_bias: i64,
}

/// Every configuration's depth bias is exactly minus one.
pub open spec fn depth_bias_forced(s: Seq<GizmoSettings>) -> bool {
    forall|i: int| 0 <= i < s.len() ==> #[trigger] s[i].depth_bias == -1
}

/// The per-frame gizmo pass: forces the depth bias of every configuration
/// group to exactly minus one, so after any frame the bias is minus one
/// whatever it was before.
pub fn update_gizmos(configs: &mut Vec<GizmoSettings>)
    ensures
        final(configs)@.len() == old(configs)@.len(),
        depth_bias_forced(final(configs)@),
{
    let n = configs.len();
    let mut i: usize = 0;
    while i < n
        invariant
            n == configs@.len(),
            i <= n,
            forall|j: int| 0 <= j < i ==> #[trigger] configs@[j].depth_bias == -1,
        decreases n - i,
    {
        configs.set(i, GizmoSettings { depth_bias: -1 });
        i = i + 1;
    }
}

} // verus!
