//! The fixed scene and window configuration, as exact integer constants.
//!
//! Lengths are in thousandths of a world unit, the field of view in
//! thousandths of a degree, so every value of the startup scene is exact.

use vstd::prelude::*;

use crate::vec3::Vec3;

verus! {

/// The primary window: fixed size, centered, non-resizable, close button
/// only, hidden until the host finishes initializing, no vertical sync.
#[derive(Clone, Copy, Debug, PartialEq, Eq, Structural)]
pub struct WindowSettings {
    pub width: i64,
    pub height: i64,
    pub centered: bool,
    pub resizable: bool,
    pub minimize_button: bool,
    pub maximize_button: bool,
    pub close_button: bool,
    pub start_visible: bool,
    pub vsync: bool,
}

/// The window configuration of the demo.
pub fn window_settings() -> (w: WindowSettings)
    ensures
        w.width == 1280,
        w.height == 720,
        w.centered,
        !w.resizable,
        !w.minimize_button,
        !w.maximize_button,
        w.close_button,
        !w.start_visible,
        !w.vsync,
{
    WindowSettings {
        width: 1280,
        height: 720,
        centered: true,
        resizable: false,
        minimize_button: false,
        maximize_button: false,
        close_button: true,
        start_visible: false,
        vsync: false,
    }
}

/// The startup scene: a unit player cube half a unit above the origin, a
/// camera looking at the origin from (4, 4, 4), a directional light aimed
/// at the origin from (1, 1, 1), linear fog, stereo listener ear offsets,
/// and the player material color. Lengths in thousandths of a unit, the
/// vertical field of view in thousandths of a degree.
#[derive(Clone, Copy, Debug, PartialEq, Eq, Structural)]
pub struct SceneSettings {
    pub player_start: Vec3,
    pub cube_size: i64,
    pub camera_start: Vec3,
    pub light_pos: Vec3,
    pub fov_millidegrees: i64,
    pub fog_start: i64,
    pub fog_end: i64,
    pub ear_offset: i64,
    pub player_red: u8,
    pub player_green: u8,
    pub player_blue: u8,
}

/// The scene constants of the demo.
pub fn scene_settings() -> (s: SceneSettings)
    ensures
        s.player_start == (Vec3 { x: 0, y: 500, z: 0 }),
        s.cube_size == 1000,
        s.camera_start == (Vec3 { x: 4000, y: 4000, z: 4000 }),
        s.light_pos == (Vec3 { x: 1000, y: 1000, z: 1000 }),
        s.fov_millidegrees == 70530,
        s.fog_start == 20000,
        s.fog_end == 48000,
        s.ear_offset == 100,
        s.player_red == 124,
        s.player_green == 144,
        s.player_blue == 255,
{
    SceneSettings {
        player_start: Vec3 { x: 0, y: 500, z: 0 },
        cube_size: 1000,
        camera_start: Vec3 { x: 4000, y: 4000, z: 4000 },
        light_pos: Vec3 { x: 1000, y: 1000, z: 1000 },
        fov_millidegrees: 70530,
        fog_start: 20000,
        fog_end: 48000,
        ear_offset: 100,
        player_red: 124,
        player_green: 144,
        player_blue: 255,
    }
}

} // verus!
