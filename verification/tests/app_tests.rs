use cam2d::{
    App, MouseButton, MouseMotion, MouseWheel, Vec2I, SCALE_ONE, count_n_cameras,
    count_n_players, create_app, get_camera_position, get_camera_rotation, get_camera_scale,
    get_player_position, get_player_size,
};

#[test]
fn test_empty_app_has_no_players() {
    let mut app = App::new();
    app.update();
    assert_eq!(count_n_players(&app), 0);
}

#[test]
fn test_create_app_has_a_player() {
    let mut app = create_app();
    app.update();
    assert_eq!(count_n_players(&app), 1);
}

#[test]
fn test_player_is_at_origin() {
    let mut app = create_app();
    app.update();
    assert_eq!(get_player_position(&app), Vec2I::new(0, 0));
}

#[test]
fn test_player_has_a_custom_size() {
    let mut app = create_app();
    app.update();
    assert_eq!(get_player_size(&app), Vec2I::new(64, 32));
}

#[test]
fn test_create_app_has_a_camera() {
    let mut app = create_app();
    app.update();
    assert_eq!(count_n_cameras(&app), 1);
}

#[test]
fn test_camera_is_at_origin() {
    let mut app = create_app();
    app.update();
    assert_eq!(get_camera_position(&app), Vec2I::new(0, 0));
}

#[test]
fn test_camera_is_at_regular_zoom() {
    let mut app = create_app();
    app.update();
    assert_eq!(get_camera_scale(&app), SCALE_ONE);
}

#[test]
fn test_camera_is_not_rotated_at_start() {
    let mut app = create_app();
    app.update();
    assert_eq!(get_camera_rotation(&app), 0);
}

#[test]
fn test_camera_responds_to_mouse_move() {
    let mut app = create_app();
    app.update();
    assert_eq!(get_camera_position(&app), Vec2I::new(0, 0));

    // Move the mouse
    app.send_mouse_motion(MouseMotion { delta: Vec2I::new(100, 100) });

    app.update();
    assert_ne!(get_camera_position(&app), Vec2I::new(0, 0));
}

#[test]
fn test_camera_responds_to_left_mouse_button_press() {
    let mut app = create_app();
    assert!(app.has_input_plugin());
    app.update();

    // Not moved yet
    assert_eq!(get_camera_rotation(&app), 0);

    // Press the left mouse button
    app.press(MouseButton::Left);

    app.update();

    // Position must have changed now
    assert_ne!(get_camera_rotation(&app), 0);
}

#[test]
fn test_camera_responds_to_right_mouse_button_press() {
    let mut app = create_app();
    assert!(app.has_input_plugin());
    app.update();

    // Not moved yet
    assert_eq!(get_camera_rotation(&app), 0);

    // Press the right mouse button
    app.press(MouseButton::Right);

    app.update();

    // Position must have changed now
    assert_ne!(get_camera_rotation(&app), 0);
}

#[test]
fn test_camera_responds_to_mouse_wheel_turn() {
    let mut app = create_app();
    assert!(app.has_input_plugin());
    app.update();

    // Not moved yet
    assert_eq!(get_camera_scale(&app), SCALE_ONE);

    // Scroll the mouse
    app.send_mouse_wheel(MouseWheel { x: 10, y: 10 });
    app.update();

    // Moved now
    assert_ne!(get_camera_scale(&app), SCALE_ONE);
}
