use shooter2d::config::Config;
use shooter2d::geom::Vec2Fx;
use shooter2d::input::{InputState, Viewport};
use shooter2d::store::PLAYER_SPEED;
use shooter2d::world::World;

fn viewport() -> Viewport {
    Viewport { width: 1600, height: 900 }
}

#[test]
fn new_world_has_player_camera_and_example_entity() {
    let w = World::new(Config::standard());
    assert_eq!(w.player.speed, PLAYER_SPEED);
    assert_eq!((w.player.transform.pos.x, w.player.transform.pos.y), (0, 0));
    let cam = w.camera.expect("the world starts with a camera");
    assert!(cam.locked);
    assert_eq!(cam.scale, 1000);
    assert_eq!(w.entities.len(), 1);
    assert!(w.bullets.is_empty());
    assert!(w.bullet_transforms.is_empty());
}

#[test]
fn tick_moves_player_and_locked_camera_together() {
    let mut w = World::new(Config::standard());
    let mut input = InputState::idle();
    input.right = true;
    w.tick(&input, viewport(), 100);
    assert_eq!((w.player.transform.pos.x, w.player.transform.pos.y), (30_000, 0));
    let cam = w.camera.unwrap();
    assert_eq!((cam.transform.pos.x, cam.transform.pos.y), (30_000, 0));
}

#[test]
fn tick_fires_spawns_and_moves_the_projectile() {
    let mut w = World::new(Config::standard());
    let mut input = InputState::idle();
    input.fire_pressed = true;
    input.fire_held = true;
    input.cursor = Some(Vec2Fx { x: 1600, y: 450 });
    w.tick(&input, viewport(), 100);
    // One event was enqueued and fully drained within the tick; the new
    // projectile already moved on its spawn tick: 20 units of spawn
    // offset plus 100 units of motion.
    assert_eq!(w.bullets.len(), 1);
    assert_eq!((w.bullets[0].dir.x, w.bullets[0].dir.y), (1000, 0));
    assert_eq!(
        (w.bullet_transforms[0].pos.x, w.bullet_transforms[0].pos.y),
        (120_000, 0)
    );
    // Without a fresh press, the edge trigger spawns nothing more and the
    // projectile keeps moving.
    let mut held = InputState::idle();
    held.fire_held = true;
    held.cursor = Some(Vec2Fx { x: 1600, y: 450 });
    w.tick(&held, viewport(), 100);
    assert_eq!(w.bullets.len(), 1);
    assert_eq!(w.bullet_transforms[0].pos.x, 220_000);
}

#[test]
fn tick_applies_the_despawn_policy() {
    let mut cfg = Config::standard();
    cfg.despawn_radius = Some(100_000);
    let mut w = World::new(cfg);
    let mut input = InputState::idle();
    input.fire_pressed = true;
    input.fire_held = true;
    input.cursor = Some(Vec2Fx { x: 1600, y: 450 });
    w.tick(&input, viewport(), 100);
    // The projectile ended its spawn tick at 120 units from the origin,
    // beyond the configured radius, and was removed.
    assert!(w.bullets.is_empty());
    assert!(w.bullet_transforms.is_empty());
}

#[test]
fn tick_moves_the_scripted_entity() {
    let mut w = World::new(Config::standard());
    let input = InputState::idle();
    w.tick(&input, viewport(), 100);
    let e = &w.entities[0];
    assert_eq!((e.velocity.x, e.velocity.y), (10_000, 10_000));
    assert_eq!((e.transform.pos.x, e.transform.pos.y), (1000, 1000));
    assert_eq!(e.queue.0.len(), 1);
}

#[test]
fn camera_recentres_on_the_already_moved_player() {
    let mut w = World::new(Config::standard());
    // First toggle: locked to unlocked, no centring; the player key still
    // pans, because the tick began locked.
    let mut input = InputState::idle();
    input.toggle_lock = true;
    input.right = true;
    w.tick(&input, viewport(), 100);
    assert!(!w.camera.unwrap().locked);
    assert_eq!(w.player.transform.pos.x, 30_000);
    assert_eq!(w.camera.unwrap().transform.pos.x, 30_000);
    // Second toggle: unlocked to locked, centring on the player position
    // updated earlier in the same tick; the player key no longer pans,
    // because the tick began unlocked.
    w.tick(&input, viewport(), 100);
    assert!(w.camera.unwrap().locked);
    assert_eq!(w.player.transform.pos.x, 60_000);
    assert_eq!(w.camera.unwrap().transform.pos.x, 60_000);
}

#[test]
fn spawn_queue_never_carries_over() {
    // An event enqueued in a tick is consumed by that same tick: ten
    // further idle ticks create no projectile.
    let mut w = World::new(Config::standard());
    let mut input = InputState::idle();
    input.fire_pressed = true;
    input.fire_held = true;
    input.cursor = Some(Vec2Fx { x: 1600, y: 450 });
    w.tick(&input, viewport(), 100);
    assert_eq!(w.bullets.len(), 1);
    let idle = InputState::idle();
    for _ in 0..10 {
        w.tick(&idle, viewport(), 100);
    }
    assert_eq!(w.bullets.len(), 1);
}
