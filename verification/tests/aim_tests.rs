use shooter2d::aim::{compute_aim, normalize_dir, reduce_dir};
use shooter2d::camera::MainCamera;
use shooter2d::geom::{Vec2Fx, Vec3Fx};
use shooter2d::input::{ndc_coord, unproject, Viewport};
use shooter2d::num::{gcd_u64, isqrt_u128};
use shooter2d::store::Transform;

fn camera_at(x: i64, y: i64, scale: i64) -> MainCamera {
    MainCamera {
        transform: Transform {
            pos: Vec3Fx { x, y, z: 0 },
            rot: None,
        },
        scale,
        locked: true,
    }
}

#[test]
fn gcd_concrete_values() {
    assert_eq!(gcd_u64(12, 18), 6);
    assert_eq!(gcd_u64(0, 7), 7);
    assert_eq!(gcd_u64(7, 0), 7);
    assert_eq!(gcd_u64(100_000, 1), 1);
}

#[test]
fn isqrt_concrete_values() {
    assert_eq!(isqrt_u128(0), 0);
    assert_eq!(isqrt_u128(24), 4);
    assert_eq!(isqrt_u128(25), 5);
    assert_eq!(isqrt_u128(2_000_000), 1414);
}

#[test]
fn reduce_keeps_signs_and_primitivity() {
    let r = reduce_dir(6, -9);
    assert_eq!(r.x, 2);
    assert_eq!(r.y, -3);
    let r = reduce_dir(-100_000, 0);
    assert_eq!(r.x, -1);
    assert_eq!(r.y, 0);
}

#[test]
fn normalize_axis_aligned_is_exact() {
    let u = normalize_dir(5, 0);
    assert_eq!((u.x, u.y), (1000, 0));
    let u = normalize_dir(0, -7);
    assert_eq!((u.x, u.y), (0, -1000));
}

#[test]
fn normalize_three_four_five() {
    let u = normalize_dir(3, 4);
    assert_eq!((u.x, u.y), (600, 800));
    let u = normalize_dir(-3, 4);
    assert_eq!((u.x, u.y), (-600, 800));
}

#[test]
fn normalize_diagonal_rounds_down() {
    let u = normalize_dir(1, 1);
    assert_eq!((u.x, u.y), (707, 707));
}

#[test]
fn aim_at_click_straight_right() {
    // Player at the origin, click at world (100, 0): the direction is the
    // unit vector (1, 0) and the angle pair is a quarter turn past the
    // player-minus-click direction.
    let r = compute_aim(Vec2Fx { x: 0, y: 0 }, Vec2Fx { x: 100_000, y: 0 });
    let (dir, angle) = r.expect("a click away from the player must aim");
    assert_eq!((dir.x, dir.y), (1000, 0));
    assert_eq!((angle.x, angle.y), (0, -1));
}

#[test]
fn aim_is_scale_invariant() {
    let p = Vec2Fx { x: 0, y: 0 };
    let near = compute_aim(p, Vec2Fx { x: 3000, y: 4000 }).unwrap();
    let far = compute_aim(p, Vec2Fx { x: 30_000, y: 40_000 }).unwrap();
    assert_eq!((near.0.x, near.0.y), (600, 800));
    assert_eq!((near.0.x, near.0.y), (far.0.x, far.0.y));
    assert_eq!((near.1.x, near.1.y), (4, -3));
    assert_eq!((near.1.x, near.1.y), (far.1.x, far.1.y));
}

#[test]
fn aim_at_click_straight_left() {
    // Aiming left: the difference from the click back to the player points
    // right, whose angle is zero, and the quarter turn leaves the pair for
    // a right angle counterclockwise.
    let r = compute_aim(Vec2Fx { x: 0, y: 0 }, Vec2Fx { x: -100_000, y: 0 });
    let (dir, angle) = r.expect("a click away from the player must aim");
    assert_eq!((dir.x, dir.y), (-1000, 0));
    assert_eq!((angle.x, angle.y), (0, 1));
}

#[test]
fn aim_at_own_position_is_skipped() {
    let p = Vec2Fx { x: 5, y: 5 };
    assert!(compute_aim(p, p).is_none());
}

#[test]
fn ndc_maps_viewport_onto_unit_range() {
    assert_eq!(ndc_coord(0, 1600), -1000);
    assert_eq!(ndc_coord(800, 1600), 0);
    assert_eq!(ndc_coord(1600, 1600), 1000);
    assert_eq!(ndc_coord(400, 1600), -500);
}

#[test]
fn unproject_center_is_camera_position() {
    let cam = camera_at(100_000, 200_000, 1000);
    let vp = Viewport { width: 1600, height: 900 };
    let w = unproject(&cam, Vec2Fx { x: 800, y: 450 }, vp);
    assert_eq!((w.x, w.y), (100_000, 200_000));
}

#[test]
fn unproject_edge_is_half_viewport_at_unit_zoom() {
    let cam = camera_at(0, 0, 1000);
    let vp = Viewport { width: 1600, height: 900 };
    let w = unproject(&cam, Vec2Fx { x: 1600, y: 450 }, vp);
    assert_eq!((w.x, w.y), (800_000, 0));
    let w = unproject(&cam, Vec2Fx { x: 800, y: 900 }, vp);
    assert_eq!((w.x, w.y), (0, 450_000));
}

#[test]
fn unproject_scales_with_zoom() {
    let cam = camera_at(0, 0, 2000);
    let vp = Viewport { width: 1600, height: 900 };
    let w = unproject(&cam, Vec2Fx { x: 1600, y: 450 }, vp);
    assert_eq!((w.x, w.y), (1_600_000, 0));
}
