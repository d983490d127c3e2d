use fur_shell::fixed::UNIT;
use fur_shell::game::{
    find_or_first, AcquireOutcome, Game, GameConfig, RenderPlan, DEFAULT_SENSITIVITY, HALF_SPEED,
};
use fur_shell::input::{Key, MouseButton};
use fur_shell::resources::model::{
    DocumentAsset, IndexAsset, IndexComponent, MeshAsset, Model, PrimitiveAsset, Vec2Bits,
    Vec3Bits,
};

fn test_model() -> Model {
    let prim = PrimitiveAsset {
        positions: Some(vec![Vec3Bits { x: 1, y: 2, z: 3 }; 3]),
        normals: Some(vec![Vec3Bits { x: 4, y: 5, z: 6 }; 3]),
        tex_coords: Some(vec![Vec2Bits { x: 7, y: 8 }; 3]),
        indices: Some(IndexAsset { component: IndexComponent::U16, values: vec![0, 1, 2] }),
        morphs: Vec::new(),
    };
    Model::from_gltf(DocumentAsset { meshes: vec![MeshAsset { primitives: vec![prim] }] })
        .unwrap()
}

fn test_game() -> Game {
    Game::new(GameConfig::default(), test_model())
}

#[test]
fn config_default_values() {
    let config = GameConfig::default();
    assert!(!config.fullscreen);
    assert!(config.monitor.is_none());
    assert_eq!(config.mouse_sensitivity, DEFAULT_SENSITIVITY);
    assert_eq!(config.width, 1920);
    assert_eq!(config.height, 1080);
}

#[test]
fn outdated_surface_reconfigures_and_stays_running() {
    let mut game = test_game();
    let plan = game.render(AcquireOutcome::Outdated, 0);
    assert_eq!(plan, RenderPlan::Reconfigure);
    assert!(game.is_running());
}

#[test]
fn lost_surface_reconfigures_and_stays_running() {
    let mut game = test_game();
    let plan = game.render(AcquireOutcome::Lost, 0);
    assert_eq!(plan, RenderPlan::Reconfigure);
    assert!(game.is_running());
}

#[test]
fn fatal_acquisition_stops_the_machine() {
    let mut game = test_game();
    let plan = game.render(AcquireOutcome::Timeout, 0);
    assert_eq!(plan, RenderPlan::Stop);
    assert!(!game.is_running());
    // Once stopped, every later tick does nothing at all.
    let plan = game.render(AcquireOutcome::Ready, UNIT);
    assert_eq!(plan, RenderPlan::Skipped);
    assert!(!game.is_running());
}

#[test]
fn out_of_memory_stops_the_machine() {
    let mut game = test_game();
    let plan = game.render(AcquireOutcome::OutOfMemory, 0);
    assert_eq!(plan, RenderPlan::Stop);
    assert!(!game.is_running());
}

#[test]
fn successful_tick_yields_the_fur_draw() {
    let mut game = test_game();
    let plan = game.render(AcquireOutcome::Ready, 0);
    match plan {
        RenderPlan::Draw { command } => {
            assert_eq!(command.index_count, 3);
            assert_eq!(command.instance_count, 32);
        },
        other => panic!("expected a draw, got {:?}", other),
    }
    assert!(game.is_running());
}

#[test]
fn first_frame_ignores_elapsed_time() {
    let mut game = test_game();
    game.handle_keyboard(Key::KeyW, true);
    // The first successful frame has no predecessor: dt counts as 0.
    game.render(AcquireOutcome::Ready, UNIT);
    assert_eq!(game.camera.position.z, 4 * UNIT);
    // The second frame advances: one second at half a unit per
    // second walks half a unit along -z.
    game.render(AcquireOutcome::Ready, UNIT);
    assert_eq!(game.camera.position.z, 4 * UNIT - UNIT / 2);
}

#[test]
fn opposing_keys_cancel() {
    let mut game = test_game();
    game.handle_keyboard(Key::KeyW, true);
    game.handle_keyboard(Key::KeyS, true);
    game.render(AcquireOutcome::Ready, UNIT);
    game.render(AcquireOutcome::Ready, UNIT);
    assert_eq!(game.camera.position, fur_shell::resources::camera::Vec3Fx {
        x: 0,
        y: 0,
        z: 4 * UNIT,
    });
}

#[test]
fn released_key_stops_motion() {
    let mut game = test_game();
    game.handle_keyboard(Key::KeyW, true);
    assert_eq!(game.forward, HALF_SPEED);
    game.handle_keyboard(Key::KeyW, false);
    assert_eq!(game.forward, 0);
}

#[test]
fn keyboard_sets_bound_axes() {
    let mut game = test_game();
    game.handle_keyboard(Key::KeyD, true);
    assert_eq!(game.right, HALF_SPEED);
    game.handle_keyboard(Key::KeyA, true);
    assert_eq!(game.left, HALF_SPEED);
    game.handle_keyboard(Key::Space, true);
    assert_eq!(game.up, HALF_SPEED);
    game.handle_keyboard(Key::ShiftLeft, true);
    assert_eq!(game.down, HALF_SPEED);
    game.handle_keyboard(Key::Other, true);
    assert_eq!(game.forward, 0);
}

#[test]
fn escape_stops_and_f11_toggles() {
    let mut game = test_game();
    game.handle_keyboard(Key::F11, true);
    assert!(game.is_fullscreen());
    game.handle_keyboard(Key::F11, false);
    assert!(game.is_fullscreen());
    game.handle_keyboard(Key::F11, true);
    assert!(!game.is_fullscreen());
    game.handle_keyboard(Key::Escape, true);
    assert!(!game.is_running());
}

#[test]
fn mouse_button_gates_look_mode() {
    let mut game = test_game();
    let visible = game.handle_mouse_button(MouseButton::Left, true);
    assert_eq!(visible, Some(false));
    assert!(game.lmb_pressed);
    let visible = game.handle_mouse_button(MouseButton::Right, true);
    assert_eq!(visible, None);
    let visible = game.handle_mouse_button(MouseButton::Left, false);
    assert_eq!(visible, Some(true));
    assert!(!game.lmb_pressed);
}

#[test]
fn axis_motion_rotates_only_in_look_mode() {
    let mut game = test_game();
    game.handle_axis(0, UNIT);
    assert_eq!(game.camera.yaw, 0);
    game.handle_mouse_button(MouseButton::Left, true);
    game.handle_axis(0, UNIT);
    // One unit of motion scaled by the default sensitivity.
    assert_eq!(game.camera.yaw, DEFAULT_SENSITIVITY);
    game.handle_axis(1, UNIT);
    // Vertical look is inverted: positive motion pitches down.
    assert_eq!(game.camera.pitch, 4 * UNIT - DEFAULT_SENSITIVITY);
}

#[test]
fn toggle_fullscreen_flips_state() {
    let mut game = test_game();
    assert!(!game.is_fullscreen());
    game.toggle_fullscreen();
    assert!(game.is_fullscreen());
    game.toggle_fullscreen();
    assert!(!game.is_fullscreen());
}

#[test]
fn resize_updates_camera_aspect() {
    let mut game = test_game();
    game.resize(640, 480);
    assert_eq!(game.width, 640);
    assert_eq!(game.height, 480);
    assert_eq!(game.camera.width, 640);
    assert_eq!(game.camera.height, 480);
    assert_eq!(game.camera.position.z, 4 * UNIT);
}

#[test]
fn export_config_reflects_live_state() {
    let mut game = test_game();
    game.toggle_fullscreen();
    game.resize(640, 480);
    let config = game.export_config(Some(String::from("DP-1")));
    assert!(config.fullscreen);
    assert_eq!(config.monitor.as_deref(), Some("DP-1"));
    assert_eq!(config.width, 640);
    assert_eq!(config.height, 480);
    assert_eq!(config.mouse_sensitivity, DEFAULT_SENSITIVITY);
}

#[test]
fn find_or_first_empty_is_none() {
    let items: Vec<u32> = Vec::new();
    assert_eq!(find_or_first(items, |_x: &u32| true), None);
}

#[test]
fn find_or_first_prefers_match_after_head() {
    let items = vec![2u32, 3, 4, 5];
    assert_eq!(find_or_first(items, |x: &u32| x % 2 == 0), Some(4));
}

#[test]
fn find_or_first_falls_back_to_head() {
    let items = vec![2u32, 3, 5];
    assert_eq!(find_or_first(items, |x: &u32| x % 2 == 0), Some(2));
}
