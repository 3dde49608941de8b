use freelook::gizmo::{update_gizmos, render_gizmos, GizmoColor, GizmoSettings};
use freelook::motion::{mouse_move, move_camera, move_player, LookStep, MoveKeys, Pose};
use freelook::quat::Quat;
use freelook::scene::{scene_settings, window_settings};
use freelook::vec3::Vec3;

fn pose(x: i64, y: i64, z: i64, q: (i64, i64, i64, i64)) -> Pose {
    Pose {
        translation: Vec3 { x, y, z },
        rotation: Quat { x: q.0, y: q.1, z: q.2, w: q.3 },
    }
}

const IDENT: (i64, i64, i64, i64) = (0, 0, 0, 1);

#[test]
fn forward_key_moves_back_along_z() {
    let mut p = pose(0, 0, 0, IDENT);
    let keys = MoveKeys { forward: true, back: false, left: false, right: false };
    move_player(&mut p, &keys, 10);
    assert_eq!(p.translation, Vec3 { x: 0, y: 0, z: -120 });
    assert_eq!(p.rotation, Quat { x: 0, y: 0, z: 0, w: 1 });
}

#[test]
fn back_key_flips_sign() {
    let mut p = pose(5, 6, 7, IDENT);
    let keys = MoveKeys { forward: false, back: true, left: false, right: false };
    move_player(&mut p, &keys, 1);
    assert_eq!(p.translation, Vec3 { x: 5, y: 6, z: 19 });
}

#[test]
fn strafe_keys_move_along_x() {
    let mut p = pose(0, 0, 0, IDENT);
    let keys = MoveKeys { forward: false, back: false, left: true, right: false };
    move_player(&mut p, &keys, 2);
    assert_eq!(p.translation, Vec3 { x: -24, y: 0, z: 0 });
    let keys = MoveKeys { forward: false, back: false, left: false, right: true };
    move_player(&mut p, &keys, 2);
    assert_eq!(p.translation, Vec3 { x: 0, y: 0, z: 0 });
}

#[test]
fn movement_is_rotation_relative() {
    // (0, 1, 0, 1) is an unnormalized yaw: its matrix maps Z to (2, 0, 0).
    let mut p = pose(0, 0, 0, (0, 1, 0, 1));
    let keys = MoveKeys { forward: true, back: false, left: false, right: false };
    move_player(&mut p, &keys, 1);
    assert_eq!(p.translation, Vec3 { x: -24, y: 0, z: 0 });
}

#[test]
fn diagonal_squared_length_doubles() {
    let q = (3, 1, 4, 2);
    let keys_f = MoveKeys { forward: true, back: false, left: false, right: false };
    let keys_fr = MoveKeys { forward: true, back: false, left: false, right: true };
    let mut single = pose(0, 0, 0, q);
    move_player(&mut single, &keys_f, 3);
    let mut diag = pose(0, 0, 0, q);
    move_player(&mut diag, &keys_fr, 3);
    let n2 = |v: &Vec3| v.x * v.x + v.y * v.y + v.z * v.z;
    assert_eq!(n2(&diag.translation), 2 * n2(&single.translation));
}

#[test]
fn right_arrow_composes_negative_yaw() {
    let mut p = pose(0, 0, 0, IDENT);
    move_camera(&mut p, true, false, 3, 5);
    assert_eq!(p.rotation, Quat { x: 0, y: -3, z: 0, w: 5 });
    assert_eq!(p.translation, Vec3 { x: 0, y: 0, z: 0 });
}

#[test]
fn left_arrow_composes_positive_yaw() {
    let mut p = pose(0, 0, 0, IDENT);
    move_camera(&mut p, false, true, 3, 5);
    assert_eq!(p.rotation, Quat { x: 0, y: 3, z: 0, w: 5 });
}

#[test]
fn both_arrows_cancel_up_to_scale() {
    let mut p = pose(0, 0, 0, IDENT);
    move_camera(&mut p, true, true, 3, 5);
    // Right then left: opposite yaw steps leave a scaled identity.
    assert_eq!(p.rotation, Quat { x: 0, y: 0, z: 0, w: 34 });
}

#[test]
fn mouse_event_composes_pitch_then_yaw() {
    let mut p = pose(0, 0, 0, IDENT);
    let steps = vec![LookStep { pitch_s: 1, pitch_c: 10, yaw_s: 2, yaw_c: 20 }];
    mouse_move(&mut p, &steps);
    assert_eq!(p.rotation, Quat { x: 20, y: 20, z: 2, w: 200 });
    assert_eq!(p.translation, Vec3 { x: 0, y: 0, z: 0 });
}

#[test]
fn mouse_events_apply_in_queue_order() {
    let mut once = pose(0, 0, 0, IDENT);
    let a = LookStep { pitch_s: 1, pitch_c: 2, yaw_s: 0, yaw_c: 1 };
    let b = LookStep { pitch_s: 0, pitch_c: 1, yaw_s: 3, yaw_c: 4 };
    mouse_move(&mut once, &vec![a, b]);
    let mut stepwise = pose(0, 0, 0, IDENT);
    mouse_move(&mut stepwise, &vec![a]);
    mouse_move(&mut stepwise, &vec![b]);
    assert_eq!(once.rotation, stepwise.rotation);
}

#[test]
fn empty_mouse_queue_keeps_pose() {
    let mut p = pose(1, 2, 3, (4, 5, 6, 7));
    mouse_move(&mut p, &Vec::new());
    assert_eq!(p, pose(1, 2, 3, (4, 5, 6, 7)));
}

#[test]
fn gizmo_geometry_at_identity() {
    let p = pose(1, 2, 3, IDENT);
    let d = render_gizmos(&p);
    assert_eq!(d.arrow_start, Vec3 { x: 1, y: 2, z: 3 });
    assert_eq!(d.arrow_end, Vec3 { x: 1, y: 2, z: 1 });
    assert_eq!(d.arrow_color, GizmoColor::Yellow);
    assert_eq!(d.axis_x.dir, Vec3 { x: 1, y: 0, z: 0 });
    assert_eq!(d.axis_x.color, GizmoColor::Red);
    assert_eq!(d.axis_y.dir, Vec3 { x: 0, y: 1, z: 0 });
    assert_eq!(d.axis_y.color, GizmoColor::Green);
    assert_eq!(d.axis_z.dir, Vec3 { x: 0, y: 0, z: 1 });
    assert_eq!(d.axis_z.color, GizmoColor::Blue);
}

#[test]
fn depth_bias_forced_to_minus_one() {
    let mut configs = vec![
        GizmoSettings { depth_bias: 0 },
        GizmoSettings { depth_bias: 5 },
        GizmoSettings { depth_bias: -1 },
    ];
    update_gizmos(&mut configs);
    assert_eq!(configs.len(), 3);
    for c in &configs {
        assert_eq!(c.depth_bias, -1);
    }
}

#[test]
fn window_constants() {
    let w = window_settings();
    assert_eq!(w.width, 1280);
    assert_eq!(w.height, 720);
    assert!(w.centered);
    assert!(!w.resizable);
    assert!(!w.minimize_button);
    assert!(!w.maximize_button);
    assert!(w.close_button);
    assert!(!w.start_visible);
    assert!(!w.vsync);
}

#[test]
fn scene_constants() {
    let s = scene_settings();
    assert_eq!(s.player_start, Vec3 { x: 0, y: 500, z: 0 });
    assert_eq!(s.cube_size, 1000);
    assert_eq!(s.camera_start, Vec3 { x: 4000, y: 4000, z: 4000 });
    assert_eq!(s.light_pos, Vec3 { x: 1000, y: 1000, z: 1000 });
    assert_eq!(s.fov_millidegrees, 70530);
    assert_eq!(s.fog_start, 20000);
    assert_eq!(s.fog_end, 48000);
    assert_eq!(s.ear_offset, 100);
    assert_eq!(s.player_red, 124);
    assert_eq!(s.player_green, 144);
    assert_eq!(s.player_blue, 255);
}
