use shooter2d::aim::AimAngle;
use shooter2d::config::Config;
use shooter2d::geom::{Vec2Fx, Vec3Fx};
use shooter2d::projectile::{despawn_bullets, spawn_bullet, update_bullets};
use shooter2d::store::{Bullet, PlayerBulletFireEvent, Transform, BULLET_SPEED};

fn event(x: i64, y: i64, dx: i64, dy: i64) -> PlayerBulletFireEvent {
    PlayerBulletFireEvent {
        pos: Vec2Fx { x, y },
        dir: Vec2Fx { x: dx, y: dy },
        angle: AimAngle { x: 0, y: -1 },
    }
}

#[test]
fn spawn_drains_the_queue_in_order() {
    let mut events = vec![event(0, 0, 1000, 0), event(5, 5, 0, 1000)];
    let mut bullets: Vec<Bullet> = Vec::new();
    let mut transforms: Vec<Transform> = Vec::new();
    spawn_bullet(&mut events, &mut bullets, &mut transforms);
    assert!(events.is_empty());
    assert_eq!(bullets.len(), 2);
    assert_eq!(bullets[0].speed, BULLET_SPEED);
    assert_eq!((bullets[0].dir.x, bullets[0].dir.y), (1000, 0));
    assert_eq!((bullets[1].dir.x, bullets[1].dir.y), (0, 1000));
    assert_eq!((transforms[0].pos.x, transforms[0].pos.y, transforms[0].pos.z), (0, 0, 0));
    assert_eq!((transforms[1].pos.x, transforms[1].pos.y), (5, 5));
    assert_eq!(transforms[0].rot, Some(AimAngle { x: 0, y: -1 }));
}

#[test]
fn integration_is_position_plus_direction_times_speed_times_dt() {
    let mut events = vec![event(0, 0, 1000, 0)];
    let mut bullets: Vec<Bullet> = Vec::new();
    let mut transforms: Vec<Transform> = Vec::new();
    spawn_bullet(&mut events, &mut bullets, &mut transforms);
    // Speed 1000 units per second, a tenth of a second: 100 units.
    update_bullets(&bullets, &mut transforms, 100);
    assert_eq!((transforms[0].pos.x, transforms[0].pos.y), (100_000, 0));
    update_bullets(&bullets, &mut transforms, 100);
    assert_eq!((transforms[0].pos.x, transforms[0].pos.y), (200_000, 0));
}

#[test]
fn integration_with_zero_delta_is_identity() {
    let mut events = vec![event(7, 8, 600, 800)];
    let mut bullets: Vec<Bullet> = Vec::new();
    let mut transforms: Vec<Transform> = Vec::new();
    spawn_bullet(&mut events, &mut bullets, &mut transforms);
    update_bullets(&bullets, &mut transforms, 0);
    assert_eq!((transforms[0].pos.x, transforms[0].pos.y), (7, 8));
}

#[test]
fn integration_follows_the_unit_direction() {
    let mut events = vec![event(0, 0, 600, 800)];
    let mut bullets: Vec<Bullet> = Vec::new();
    let mut transforms: Vec<Transform> = Vec::new();
    spawn_bullet(&mut events, &mut bullets, &mut transforms);
    update_bullets(&bullets, &mut transforms, 100);
    assert_eq!((transforms[0].pos.x, transforms[0].pos.y), (60_000, 80_000));
}

#[test]
fn integration_preserves_depth_and_rotation() {
    let bullets = vec![Bullet {
        speed: BULLET_SPEED,
        dir: Vec2Fx { x: 0, y: -1000 },
        angle: AimAngle { x: 1, y: 0 },
    }];
    let mut transforms = vec![Transform {
        pos: Vec3Fx { x: 0, y: 0, z: 13 },
        rot: Some(AimAngle { x: 1, y: 0 }),
    }];
    update_bullets(&bullets, &mut transforms, 50);
    assert_eq!(transforms[0].pos.z, 13);
    assert_eq!(transforms[0].rot, Some(AimAngle { x: 1, y: 0 }));
    assert_eq!(transforms[0].pos.y, -50_000);
}

#[test]
fn despawn_removes_far_projectiles_only() {
    let mut events = vec![
        event(0, 0, 1000, 0),
        event(900_000, 0, 1000, 0),
        event(0, -600_000, 0, 1000),
    ];
    let mut bullets: Vec<Bullet> = Vec::new();
    let mut transforms: Vec<Transform> = Vec::new();
    spawn_bullet(&mut events, &mut bullets, &mut transforms);
    let mut cfg = Config::standard();
    cfg.despawn_radius = Some(500_000);
    despawn_bullets(&mut bullets, &mut transforms, &cfg);
    assert_eq!(bullets.len(), 1);
    assert_eq!(transforms.len(), 1);
    assert_eq!((transforms[0].pos.x, transforms[0].pos.y), (0, 0));
}

#[test]
fn no_despawn_policy_keeps_everything() {
    let mut events = vec![event(900_000, 900_000, 1000, 0)];
    let mut bullets: Vec<Bullet> = Vec::new();
    let mut transforms: Vec<Transform> = Vec::new();
    spawn_bullet(&mut events, &mut bullets, &mut transforms);
    let cfg = Config::standard();
    assert!(cfg.despawn_radius.is_none());
    despawn_bullets(&mut bullets, &mut transforms, &cfg);
    assert_eq!(bullets.len(), 1);
}
