//! A verified model of a small interactive 2D scene.
//!
//! The scene holds a camera and a player sprite. Each frame, queued pointer
//! events and the pointer-button state move, rotate and zoom the camera by
//! small deterministic deltas. All coordinates are integers: translations and
//! wheel amounts are in device units, camera rotation is counted in tenth
//! steps about the z axis, and the orthographic projection scale is held in
//! thousandths (`SCALE_ONE` is a zoom of one).

mod app;
mod geometry;
mod input;

pub use app::{
    App, AppView, Camera, CameraView, Player, PlayerView, Transform, TransformView,
    PLAYER_HEIGHT, PLAYER_WIDTH, SCALE_ONE, buttons_phase, camera_ok, count_n_cameras,
    count_n_players, create_app, empty_app, get_camera_position, get_camera_rotation,
    get_camera_scale, get_player_position, get_player_size, initial_camera, initial_player,
    initial_transform, motion_phase, pan_all, pan_one, player_ok, rot_after, startup_phase,
    step, transform_ok, wf, wheel_phase, zoom_all, zoom_one,
};
pub use geometry::{Vec2I, Vec2View, COORD_LIMIT, clamp_i, in_range, tdiv, vec2_ok};
pub use input::{
    MotionView, MouseButton, MouseMotion, MouseWheel, WheelView, clamp_motion, clamp_wheel,
    motion_ok, wheel_ok,
};
