use cam2d::{
    App, COORD_LIMIT, MouseButton, MouseMotion, MouseWheel, Vec2I, SCALE_ONE, count_n_cameras,
    count_n_players, create_app, get_camera_position, get_camera_rotation, get_camera_scale,
};

#[test]
fn test_pan_moves_by_a_twentieth_with_y_inverted() {
    let mut app = create_app();
    app.send_mouse_motion(MouseMotion { delta: Vec2I::new(100, 100) });
    app.update();
    assert_eq!(get_camera_position(&app), Vec2I::new(5, -5));
}

#[test]
fn test_pan_rounds_toward_zero() {
    let mut app = create_app();
    app.send_mouse_motion(MouseMotion { delta: Vec2I::new(-100, -100) });
    app.update();
    assert_eq!(get_camera_position(&app), Vec2I::new(-5, 5));

    let mut small = create_app();
    small.send_mouse_motion(MouseMotion { delta: Vec2I::new(-10, 10) });
    small.update();
    assert_eq!(get_camera_position(&small), Vec2I::new(0, 0));
}

#[test]
fn test_motion_events_are_drained_after_a_frame() {
    let mut app = create_app();
    app.send_mouse_motion(MouseMotion { delta: Vec2I::new(100, 100) });
    app.update();
    app.update();
    assert_eq!(get_camera_position(&app), Vec2I::new(5, -5));
}

#[test]
fn test_left_press_rotates_one_step_per_frame() {
    let mut app = create_app();
    app.press(MouseButton::Left);
    app.update();
    assert_eq!(get_camera_rotation(&app), 1);
    app.update();
    assert_eq!(get_camera_rotation(&app), 2);
}

#[test]
fn test_right_press_rotates_back() {
    let mut app = create_app();
    app.press(MouseButton::Right);
    app.update();
    assert_eq!(get_camera_rotation(&app), -1);
}

#[test]
fn test_both_buttons_cancel_out() {
    let mut app = create_app();
    app.press(MouseButton::Left);
    app.press(MouseButton::Right);
    app.update();
    assert_eq!(get_camera_rotation(&app), 0);
}

#[test]
fn test_release_stops_the_rotation() {
    let mut app = create_app();
    app.press(MouseButton::Left);
    app.update();
    app.release(MouseButton::Left);
    app.update();
    assert_eq!(get_camera_rotation(&app), 1);
}

#[test]
fn test_wheel_scales_by_a_tenth_of_the_turn() {
    let mut app = create_app();
    app.send_mouse_wheel(MouseWheel { x: 10, y: 10 });
    app.update();
    assert_eq!(get_camera_scale(&app), 3 * SCALE_ONE);
}

#[test]
fn test_wheel_turned_back_shrinks_the_scale() {
    let mut app = create_app();
    app.send_mouse_wheel(MouseWheel { x: -5, y: 0 });
    app.update();
    assert_eq!(get_camera_scale(&app), SCALE_ONE / 2);
}

#[test]
fn test_zero_wheel_turn_keeps_the_scale() {
    let mut app = create_app();
    app.send_mouse_wheel(MouseWheel { x: 0, y: 0 });
    app.update();
    assert_eq!(get_camera_scale(&app), SCALE_ONE);
}

#[test]
fn test_wheel_events_apply_in_order() {
    let mut app = create_app();
    app.send_mouse_wheel(MouseWheel { x: 5, y: 0 });
    app.send_mouse_wheel(MouseWheel { x: 2, y: 0 });
    app.update();
    // 1000 -> 1500 -> 1800
    assert_eq!(get_camera_scale(&app), 1800);
}

#[test]
fn test_huge_motion_is_clamped() {
    let mut app = create_app();
    app.send_mouse_motion(MouseMotion { delta: Vec2I::new(i64::MAX, i64::MIN) });
    app.update();
    assert_eq!(get_camera_position(&app), Vec2I::new(COORD_LIMIT / 20, COORD_LIMIT / 20));
}

#[test]
fn test_unconfigured_app_spawns_nothing_and_ignores_input() {
    let mut app = App::new();
    app.press(MouseButton::Left);
    app.send_mouse_motion(MouseMotion { delta: Vec2I::new(100, 100) });
    app.update();
    assert_eq!(count_n_cameras(&app), 0);
    assert_eq!(count_n_players(&app), 0);
    assert!(!app.has_input_plugin());
}

#[test]
fn test_update_before_input_leaves_the_scene_fixed() {
    let mut app = create_app();
    app.update();
    app.update();
    assert_eq!(get_camera_position(&app), Vec2I::new(0, 0));
    assert_eq!(get_camera_rotation(&app), 0);
    assert_eq!(get_camera_scale(&app), SCALE_ONE);
}
