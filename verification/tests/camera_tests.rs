use shooter2d::camera::{camera_control, spawn_camera, MainCamera};
use shooter2d::config::Config;
use shooter2d::geom::Vec3Fx;
use shooter2d::input::InputState;
use shooter2d::store::Transform;

fn camera(x: i64, y: i64, z: i64, scale: i64, locked: bool) -> MainCamera {
    MainCamera {
        transform: Transform { pos: Vec3Fx { x, y, z }, rot: None },
        scale,
        locked,
    }
}

#[test]
fn spawn_camera_starts_locked_at_unit_zoom() {
    let cfg = Config::standard();
    let c = spawn_camera(&cfg);
    assert!(c.locked);
    assert_eq!((c.transform.pos.x, c.transform.pos.y, c.transform.pos.z), (0, 0, 0));
    assert_eq!(c.scale, 1000);
}

#[test]
fn zoom_never_goes_below_the_floor() {
    // However long the zoom-in key is held, the scale stops at 0.5.
    let cfg = Config::standard();
    let mut cam = camera(0, 0, 0, 1000, true);
    let mut input = InputState::idle();
    input.zoom_in = true;
    for _ in 0..100 {
        camera_control(&mut cam, None, &input, &cfg, 100);
        assert!(cam.scale >= 500);
    }
    assert_eq!(cam.scale, 500);
}

#[test]
fn zoom_step_matches_configuration() {
    let cfg = Config::standard();
    let mut cam = camera(0, 0, 0, 1000, true);
    let mut input = InputState::idle();
    input.zoom_out = true;
    camera_control(&mut cam, None, &input, &cfg, 100);
    assert_eq!(cam.scale, 1030);
    input.zoom_out = false;
    input.zoom_in = true;
    camera_control(&mut cam, None, &input, &cfg, 100);
    assert_eq!(cam.scale, 1000);
}

#[test]
fn zoom_stops_at_the_configured_ceiling() {
    let mut cfg = Config::standard();
    cfg.zoom_max = 1100;
    let mut cam = camera(0, 0, 0, 1000, true);
    let mut input = InputState::idle();
    input.zoom_out = true;
    for _ in 0..10 {
        camera_control(&mut cam, None, &input, &cfg, 100);
    }
    assert_eq!(cam.scale, 1100);
}

#[test]
fn locking_centers_exactly_on_player() {
    // Unlocked to locked while a player exists: the camera's plane
    // position becomes the player's, and the depth coordinate is kept.
    let cfg = Config::standard();
    let mut cam = camera(5000, 6000, 7, 1000, false);
    let player = Vec3Fx { x: 30_000, y: -2000, z: 99 };
    let mut input = InputState::idle();
    input.toggle_lock = true;
    camera_control(&mut cam, Some(player), &input, &cfg, 100);
    assert!(cam.locked);
    assert_eq!((cam.transform.pos.x, cam.transform.pos.y), (30_000, -2000));
    assert_eq!(cam.transform.pos.z, 7);
}

#[test]
fn unlocking_keeps_the_position() {
    let cfg = Config::standard();
    let mut cam = camera(1, 2, 3, 1000, true);
    let mut input = InputState::idle();
    input.toggle_lock = true;
    camera_control(&mut cam, Some(Vec3Fx { x: 70, y: 80, z: 90 }), &input, &cfg, 100);
    assert!(!cam.locked);
    assert_eq!((cam.transform.pos.x, cam.transform.pos.y, cam.transform.pos.z), (1, 2, 3));
}

#[test]
fn toggle_without_player_does_nothing() {
    let cfg = Config::standard();
    let mut cam = camera(5, 6, 7, 1000, false);
    let mut input = InputState::idle();
    input.toggle_lock = true;
    camera_control(&mut cam, None, &input, &cfg, 100);
    assert!(!cam.locked);
    assert_eq!((cam.transform.pos.x, cam.transform.pos.y), (5, 6));
}

#[test]
fn locked_camera_pans_with_player_keys() {
    let cfg = Config::standard();
    let mut cam = camera(0, 0, 0, 1000, true);
    let mut input = InputState::idle();
    input.right = true;
    camera_control(&mut cam, None, &input, &cfg, 100);
    assert_eq!((cam.transform.pos.x, cam.transform.pos.y), (30_000, 0));
}

#[test]
fn unlocked_camera_ignores_player_keys() {
    let cfg = Config::standard();
    let mut cam = camera(0, 0, 0, 1000, false);
    let mut input = InputState::idle();
    input.right = true;
    camera_control(&mut cam, None, &input, &cfg, 100);
    assert_eq!((cam.transform.pos.x, cam.transform.pos.y), (0, 0));
}

#[test]
fn dedicated_pan_keys_work_in_both_states() {
    let cfg = Config::standard();
    for locked in [false, true] {
        let mut cam = camera(0, 0, 11, 1000, locked);
        let mut input = InputState::idle();
        input.cam_up = true;
        camera_control(&mut cam, None, &input, &cfg, 100);
        assert_eq!((cam.transform.pos.x, cam.transform.pos.y), (0, 30_000));
        assert_eq!(cam.transform.pos.z, 11);
    }
}
