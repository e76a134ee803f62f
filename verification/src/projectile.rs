//! The projectile system: spawn-event drain, motion integration, despawn.
//!
//! Projectiles live in two parallel tables of the entity store: their own
//! components ([`Bullet`]) and their transforms, index-aligned.  Each tick
//! fully drains the spawn-event queue in arrival order, appends one
//! projectile per event, then integrates every projectile's position.  An
//! explicit, configurable despawn pass — without one, projectiles would
//! accumulate without bound — removes projectiles beyond a configured
//! Chebyshev radius from the origin; by default none is configured and
//! projectiles persist.

use vstd::prelude::*;
use crate::config::Config;
use crate::fixp::{clamp_spec, clamp_i64, iabs, tdiv, DT_MAX, SCALE, WORLD_BOUND};
use crate::geom::Vec3Fx;
use crate::store::{Bullet, PlayerBulletFireEvent, Transform, BULLET_SPEED};

verus! {

/// The projectile a spawn event creates: the module-level projectile speed,
/// and the event's direction and angle.
pub open spec fn bullet_of(e: PlayerBulletFireEvent) -> Bullet {
    Bullet { speed: BULLET_SPEED, dir: e.dir, angle: e.angle }
}

/// The transform a spawn event creates: the event's origin at depth zero,
/// rotated to the event's angle.
pub open spec fn bullet_transform_of(e: PlayerBulletFireEvent) -> Transform {
    Transform { pos: Vec3Fx { x: e.pos.x, y: e.pos.y, z: 0 }, rot: Some(e.angle) }
}

/// Drains the spawn-event queue in arrival order — no reordering, no
/// de-duplication — appending one projectile per event to the two tables;
/// the queue is empty afterwards.
pub fn spawn_bullet(
    events: &mut Vec<PlayerBulletFireEvent>,
    bullets: &mut Vec<Bullet>,
    transforms: &mut Vec<Transform>,
)
    requires
        old(bullets)@.len() == old(transforms)@.len(),
    ensures
        final(events)@.len() == 0,
        final(bullets)@ == old(bullets)@ + old(events)@.map_values(
            |e: PlayerBulletFireEvent| bullet_of(e),
        ),
        final(transforms)@ == old(transforms)@ + old(events)@.map_values(
            |e: PlayerBulletFireEvent| bullet_transform_of(e),
        ),
        final(bullets)@.len() == final(transforms)@.len(),
{
    let ghost evs = events@;
    let mut i: usize = 0;
    while i < events.len()
        invariant
            i <= events@.len(),
            events@ == evs,
            bullets@ == old(bullets)@ + evs.take(i as int).map_values(
                |e: PlayerBulletFireEvent| bullet_of(e),
            ),
            transforms@ == old(transforms)@ + evs.take(i as int).map_values(
                |e: PlayerBulletFireEvent| bullet_transform_of(e),
            ),
        decreases events@.len() - i,
    {
        let e = events[i];
        bullets.push(Bullet { speed: BULLET_SPEED, dir: e.dir, angle: e.angle });
        transforms.push(Transform { pos: Vec3Fx { x: e.pos.x, y: e.pos.y, z: 0 }, rot: Some(e.angle) });
        proof {
            assert(evs.take(i + 1 as int) =~= evs.take(i as int).push(evs[i as int]));
            assert(evs.take(i + 1 as int).map_values(|e: PlayerBulletFireEvent| bullet_of(e))
                =~= evs.take(i as int).map_values(|e: PlayerBulletFireEvent| bullet_of(e)).push(
                bullet_of(evs[i as int])));
            assert(evs.take(i + 1 as int).map_values(
                |e: PlayerBulletFireEvent| bullet_transform_of(e),
            ) =~= evs.take(i as int).map_values(
                |e: PlayerBulletFireEvent| bullet_transform_of(e),
            ).push(bullet_transform_of(evs[i as int])));
        }
        i = i + 1;
    }
    proof {
        assert(evs.take(evs.len() as int) =~= evs);
    }
    *events = Vec::new();
}

/// Horizontal position of a projectile after one tick: the direction
/// component, scaled by the projectile's speed and the time delta, added
/// and clamped into the world.
pub open spec fn integrate_x(t: Transform, b: Bullet, dt: int) -> int {
    clamp_spec(
        t.pos.x + tdiv(b.dir.x * b.speed * dt, SCALE as int * SCALE as int),
        -WORLD_BOUND as int,
        WORLD_BOUND as int,
    )
}

/// Vertical position of a projectile after one tick.
pub open spec fn integrate_y(t: Transform, b: Bullet, dt: int) -> int {
    clamp_spec(
        t.pos.y + tdiv(b.dir.y * b.speed * dt, SCALE as int * SCALE as int),
        -WORLD_BOUND as int,
        WORLD_BOUND as int,
    )
}

/// A projectile's transform after one tick of motion: both plane
/// coordinates advance, the depth coordinate and rotation stay.
pub open spec fn integrated(t: Transform, b: Bullet, dt: int) -> Transform {
    Transform {
        pos: Vec3Fx {
            x: integrate_x(t, b, dt) as i64,
            y: integrate_y(t, b, dt) as i64,
            z: t.pos.z,
        },
        rot: t.rot,
    }
}

/// Integrates every live projectile's motion for one tick: each position
/// advances by direction times speed times the time delta, exactly; depth
/// coordinates and rotations are untouched.
pub fn update_bullets(bullets: &Vec<Bullet>, transforms: &mut Vec<Transform>, dt: i64)
    requires
        bullets@.len() == old(transforms)@.len(),
        forall|i: int| 0 <= i < bullets@.len() ==> (#[trigger] bullets@[i]).wf(),
        forall|i: int| 0 <= i < old(transforms)@.len() ==> (#[trigger] old(transforms)@[i]).wf(),
        0 <= dt <= DT_MAX,
    ensures
        final(transforms)@.len() == old(transforms)@.len(),
        forall|i: int|
            0 <= i < old(transforms)@.len() ==> (#[trigger] final(transforms)@[i]) == integrated(
                old(transforms)@[i],
                bullets@[i],
                dt as int,
            ),
        forall|i: int| 0 <= i < final(transforms)@.len() ==> (#[trigger] final(transforms)@[i]).wf(),
{
    let mut i: usize = 0;
    while i < transforms.len()
        invariant
            i <= transforms@.len(),
            transforms@.len() == old(transforms)@.len(),
            bullets@.len() == old(transforms)@.len(),
            forall|j: int| 0 <= j < bullets@.len() ==> (#[trigger] bullets@[j]).wf(),
            forall|j: int| 0 <= j < old(transforms)@.len() ==> (#[trigger] old(transforms)@[j]).wf(),
            0 <= dt <= DT_MAX,
            forall|j: int| i <= j < transforms@.len() ==> (#[trigger] transforms@[j]) == old(
                transforms,
            )@[j],
            forall|j: int|
                0 <= j < i ==> (#[trigger] transforms@[j]) == integrated(
                    old(transforms)@[j],
                    bullets@[j],
                    dt as int,
                ),
            forall|j: int| 0 <= j < i ==> (#[trigger] transforms@[j]).wf(),
        decreases transforms@.len() - i,
    {
        let t = transforms[i];
        let b = &bullets[i];
        let step_x = crate::fixp::mul3_tdiv_s2(b.dir.x, b.speed, dt);
        let step_y = crate::fixp::mul3_tdiv_s2(b.dir.y, b.speed, dt);
        proof {
            crate::fixp::lemma_mul3_range(b.dir.x as int, b.speed as int, dt as int, 1000,
                10_000_000, 10_000);
            crate::fixp::lemma_tdiv_bound(b.dir.x as int * b.speed * dt, 1_000_000,
                100_000_000_000_000);
            crate::fixp::lemma_mul3_range(b.dir.y as int, b.speed as int, dt as int, 1000,
                10_000_000, 10_000);
            crate::fixp::lemma_tdiv_bound(b.dir.y as int * b.speed * dt, 1_000_000,
                100_000_000_000_000);
        }
        let nx = clamp_i64(t.pos.x + step_x, -WORLD_BOUND, WORLD_BOUND);
        let ny = clamp_i64(t.pos.y + step_y, -WORLD_BOUND, WORLD_BOUND);
        transforms.set(i, Transform { pos: Vec3Fx { x: nx, y: ny, z: t.pos.z }, rot: t.rot });
        i = i + 1;
    }
}

/// For every projectile and every nonnegative time delta, the integrated
/// position is exactly the position before plus direction times speed times
/// the delta (each product rescaled by one fixed-point factor), and the
/// depth coordinate and rotation are unchanged — wherever the advanced
/// position stays within the world's extent, so that the world clamp is
/// inert.
pub proof fn lemma_projectile_motion_exact(t: Transform, b: Bullet, dt: int)
    requires
        dt >= 0,
        -WORLD_BOUND <= t.pos.x + tdiv(b.dir.x as int * b.speed as int * dt,
            SCALE as int * SCALE as int) <= WORLD_BOUND,
        -WORLD_BOUND <= t.pos.y + tdiv(b.dir.y as int * b.speed as int * dt,
            SCALE as int * SCALE as int) <= WORLD_BOUND,
    ensures
        integrated(t, b, dt).pos.x as int == t.pos.x + tdiv(b.dir.x as int * b.speed as int * dt,
            SCALE as int * SCALE as int),
        integrated(t, b, dt).pos.y as int == t.pos.y + tdiv(b.dir.y as int * b.speed as int * dt,
            SCALE as int * SCALE as int),
        integrated(t, b, dt).pos.z == t.pos.z,
        integrated(t, b, dt).rot == t.rot,
{
}

/// A projectile stays alive when its position is within the given Chebyshev
/// radius of the origin.
pub open spec fn within_radius(t: Transform, r: int) -> bool {
    &&& iabs(t.pos.x as int) <= r
    &&& iabs(t.pos.y as int) <= r
}

/// The projectile components that survive a despawn pass with radius `r`,
/// in their original order.
pub open spec fn kept_bullets(bs: Seq<Bullet>, ts: Seq<Transform>, r: int) -> Seq<Bullet>
    decreases bs.len(),
{
    if bs.len() == 0 || ts.len() == 0 {
        Seq::empty()
    } else if within_radius(ts.last(), r) {
        kept_bullets(bs.drop_last(), ts.drop_last(), r).push(bs.last())
    } else {
        kept_bullets(bs.drop_last(), ts.drop_last(), r)
    }
}

/// The projectile transforms that survive a despawn pass with radius `r`,
/// in their original order.
pub open spec fn kept_transforms(ts: Seq<Transform>, r: int) -> Seq<Transform>
    decreases ts.len(),
{
    if ts.len() == 0 {
        Seq::empty()
    } else if within_radius(ts.last(), r) {
        kept_transforms(ts.drop_last(), r).push(ts.last())
    } else {
        kept_transforms(ts.drop_last(), r)
    }
}

/// Removes every projectile farther from the origin than the configured
/// radius, keeping the rest in order; with no radius configured the tables
/// are left untouched and projectiles persist forever.
pub fn despawn_bullets(bullets: &mut Vec<Bullet>, transforms: &mut Vec<Transform>, config: &Config)
    requires
        old(bullets)@.len() == old(transforms)@.len(),
        config.wf(),
    ensures
        (match config.despawn_radius {
            None => final(bullets)@ == old(bullets)@ && final(transforms)@ == old(transforms)@,
            Some(r) => final(bullets)@ == kept_bullets(old(bullets)@, old(transforms)@, r as int)
                && final(transforms)@ == kept_transforms(old(transforms)@, r as int),
        }),
        final(bullets)@.len() == final(transforms)@.len(),
{
    let r: i64 = match config.despawn_radius {
        None => {
            return ;
        },
        Some(r) => r,
    };
    let mut nb: Vec<Bullet> = Vec::new();
    let mut nt: Vec<Transform> = Vec::new();
    let mut i: usize = 0;
    while i < bullets.len()
        invariant
            i <= bullets@.len(),
            bullets@.len() == transforms@.len(),
            0 <= r,
            nb@ == kept_bullets(bullets@.take(i as int), transforms@.take(i as int), r as int),
            nt@ == kept_transforms(transforms@.take(i as int), r as int),
            nb@.len() == nt@.len(),
        decreases bullets@.len() - i,
    {
        let t = transforms[i];
        if -r <= t.pos.x && t.pos.x <= r && -r <= t.pos.y && t.pos.y <= r {
            nb.push(bullets[i]);
            nt.push(t);
        }
        proof {
            assert(bullets@.take(i + 1 as int).drop_last() =~= bullets@.take(i as int));
            assert(transforms@.take(i + 1 as int).drop_last() =~= transforms@.take(i as int));
            assert(bullets@.take(i + 1 as int).last() == bullets@[i as int]);
            assert(transforms@.take(i + 1 as int).last() == transforms@[i as int]);
        }
        i = i + 1;
    }
    proof {
        assert(bullets@.take(bullets@.len() as int) =~= bullets@);
        assert(transforms@.take(transforms@.len() as int) =~= transforms@);
    }
    *bullets = nb;
    *transforms = nt;
}

/// Well-formedness carries through a despawn pass: surviving projectile
/// components all come from the original table.
pub proof fn lemma_kept_bullets_wf(bs: Seq<Bullet>, ts: Seq<Transform>, r: int)
    requires
        forall|i: int| 0 <= i < bs.len() ==> (#[trigger] bs[i]).wf(),
    ensures
        forall|i: int| 0 <= i < kept_bullets(bs, ts, r).len() ==> (#[trigger] kept_bullets(bs, ts,
            r)[i]).wf(),
        kept_bullets(bs, ts, r).len() <= bs.len(),
    decreases bs.len(),
{
    if bs.len() > 0 && ts.len() > 0 {
        lemma_kept_bullets_wf(bs.drop_last(), ts.drop_last(), r);
        let k = kept_bullets(bs, ts, r);
        let kp = kept_bullets(bs.drop_last(), ts.drop_last(), r);
        assert forall|i: int| 0 <= i < k.len() implies (#[trigger] k[i]).wf() by {
            if within_radius(ts.last(), r) {
                if i < kp.len() {
                    assert(k[i] == kp[i]);
                } else {
                    assert(k[i] == bs.last());
                }
            } else {
                assert(k[i] == kp[i]);
            }
        }
    }
}

/// Well-formedness carries through a despawn pass: surviving transforms all
/// come from the original table.
pub proof fn lemma_kept_transforms_wf(ts: Seq<Transform>, r: int)
    requires
        forall|i: int| 0 <= i < ts.len() ==> (#[trigger] ts[i]).wf(),
    ensures
        forall|i: int| 0 <= i < kept_transforms(ts, r).len() ==> (#[trigger] kept_transforms(ts,
            r)[i]).wf(),
        kept_transforms(ts, r).len() <= ts.len(),
    decreases ts.len(),
{
    if ts.len() > 0 {
        lemma_kept_transforms_wf(ts.drop_last(), r);
        let k = kept_transforms(ts, r);
        let kp = kept_transforms(ts.drop_last(), r);
        assert forall|i: int| 0 <= i < k.len() implies (#[trigger] k[i]).wf() by {
            if within_radius(ts.last(), r) {
                if i < kp.len() {
                    assert(k[i] == kp[i]);
                } else {
                    assert(k[i] == ts.last());
                }
            } else {
                assert(k[i] == kp[i]);
            }
        }
    }
}

/// Every projectile that survives a despawn pass lies within the radius.
pub proof fn lemma_despawn_within(ts: Seq<Transform>, r: int)
    ensures
        forall|i: int|
            0 <= i < kept_transforms(ts, r).len() ==> within_radius(
                #[trigger] kept_transforms(ts, r)[i],
                r,
            ),
    decreases ts.len(),
{
    if ts.len() > 0 {
        lemma_despawn_within(ts.drop_last(), r);
        let k = kept_transforms(ts, r);
        let kp = kept_transforms(ts.drop_last(), r);
        assert forall|i: int| 0 <= i < k.len() implies within_radius(#[trigger] k[i], r) by {
            if within_radius(ts.last(), r) {
                if i < kp.len() {
                    assert(k[i] == kp[i]);
                } else {
                    assert(k[i] == ts.last());
                }
            } else {
                assert(k[i] == kp[i]);
            }
        }
    }
}

} // verus!
