//! The camera: a two-state pan/zoom/lock machine.
//!
//! The camera is `Locked` or `Unlocked`.  A toggle key switches the state,
//! but only while a player exists; on the switch from `Unlocked` to `Locked`
//! the camera recentres on the player's position, leaving its depth
//! coordinate untouched.  While locked, the player's movement keys pan the
//! camera alongside the dedicated pan keys; while unlocked only the
//! dedicated keys do.  Zoom keys add or subtract a configured step per tick,
//! and the scale is clamped between the fixed floor and the configured
//! ceiling.

use vstd::prelude::*;
use crate::config::Config;
use crate::fixp::{clamp_spec, clamp_i64, tdiv, SCALE, WORLD_BOUND, ZOOM_MIN, DT_MAX};
use crate::geom::Vec3Fx;
use crate::input::{key_axis, InputState};
use crate::store::{Transform, PLAYER_SPEED};
use crate::aim::AimAngle;

verus! {

/// The camera: a transform, a zoom scale and the lock flag.
#[derive(Clone, Copy, PartialEq, Eq, Structural, Debug)]
pub struct MainCamera {
    pub transform: Transform,
    pub scale: i64,
    pub locked: bool,
}

impl MainCamera {
    /// In-world position; zoom scale between the floor and the configured
    /// ceiling.
    pub open spec fn wf(self, config: Config) -> bool {
        &&& self.transform.wf()
        &&& ZOOM_MIN <= self.scale <= config.zoom_max
    }
}

/// Creates the camera at the origin, locked, at unit zoom (clamped into the
/// configured range).
pub fn spawn_camera(config: &Config) -> (c: MainCamera)
    requires
        config.wf(),
    ensures
        c.wf(*config),
        c.transform.pos == (Vec3Fx { x: 0, y: 0, z: 0 }),
        c.transform.rot == Option::<AimAngle>::None,
        c.scale as int == clamp_spec(SCALE as int, ZOOM_MIN as int, config.zoom_max as int),
        c.locked,
{
    let scale = clamp_i64(SCALE, ZOOM_MIN, config.zoom_max);
    MainCamera { transform: Transform::at_origin_of(0, 0), scale, locked: true }
}

/// Horizontal camera key sum: dedicated pan keys always count; while locked
/// the player's movement keys count as well.
pub open spec fn cam_key_x(input: InputState, locked: bool) -> int {
    key_axis(
        input.cam_left || (locked && input.left),
        input.cam_right || (locked && input.right),
    )
}

/// Vertical camera key sum.
pub open spec fn cam_key_y(input: InputState, locked: bool) -> int {
    key_axis(input.cam_down || (locked && input.down), input.cam_up || (locked && input.up))
}

/// Signed zoom change of one tick: a configured step out, a step in, or
/// nothing.
pub open spec fn zoom_delta(input: InputState, config: Config) -> int {
    (if input.zoom_out {
        config.zoom_step as int
    } else {
        0int
    }) - (if input.zoom_in {
        config.zoom_step as int
    } else {
        0int
    })
}

/// One tick of the camera: toggle and recentre, zoom and clamp, then pan at
/// the player's speed, preserving the depth coordinate throughout.  The pan
/// keys are read against the lock state the tick began with.
pub open spec fn camera_step(
    cam: MainCamera,
    player_pos: Option<Vec3Fx>,
    input: InputState,
    config: Config,
    dt: int,
) -> MainCamera {
    let has_player = match player_pos {
        Some(p) => true,
        None => false,
    };
    let toggling = input.toggle_lock && has_player;
    let centering = toggling && !cam.locked;
    let locked1 = if toggling {
        !cam.locked
    } else {
        cam.locked
    };
    let base_x = match player_pos {
        Some(p) => if centering {
            p.x as int
        } else {
            cam.transform.pos.x as int
        },
        None => cam.transform.pos.x as int,
    };
    let base_y = match player_pos {
        Some(p) => if centering {
            p.y as int
        } else {
            cam.transform.pos.y as int
        },
        None => cam.transform.pos.y as int,
    };
    let scale1 = clamp_spec(
        cam.scale + zoom_delta(input, config),
        ZOOM_MIN as int,
        config.zoom_max as int,
    );
    let pan_x = tdiv(
        cam_key_x(input, cam.locked) * SCALE * PLAYER_SPEED * dt,
        SCALE as int * SCALE as int,
    );
    let pan_y = tdiv(
        cam_key_y(input, cam.locked) * SCALE * PLAYER_SPEED * dt,
        SCALE as int * SCALE as int,
    );
    let px = clamp_spec(base_x + pan_x, -WORLD_BOUND as int, WORLD_BOUND as int);
    let py = clamp_spec(base_y + pan_y, -WORLD_BOUND as int, WORLD_BOUND as int);
    MainCamera {
        transform: Transform {
            pos: Vec3Fx { x: px as i64, y: py as i64, z: cam.transform.pos.z },
            rot: cam.transform.rot,
        },
        scale: scale1 as i64,
        locked: locked1,
    }
}

/// Applies one tick of camera control: exactly [`camera_step`].
pub fn camera_control(
    cam: &mut MainCamera,
    player_pos: Option<Vec3Fx>,
    input: &InputState,
    config: &Config,
    dt: i64,
)
    requires
        old(cam).wf(*config),
        config.wf(),
        0 <= dt <= DT_MAX,
        (match player_pos {
            Some(p) => p.in_world(),
            None => true,
        }),
    ensures
        *final(cam) == camera_step(*old(cam), player_pos, *input, *config, dt as int),
        final(cam).wf(*config),
        final(cam).transform.pos.z == old(cam).transform.pos.z,
        ZOOM_MIN <= final(cam).scale <= config.zoom_max,
{
    let old_locked = cam.locked;
    let kx: i64 = (if input.cam_right || (old_locked && input.right) {
        1i64
    } else {
        0i64
    }) - (if input.cam_left || (old_locked && input.left) {
        1i64
    } else {
        0i64
    });
    let ky: i64 = (if input.cam_up || (old_locked && input.up) {
        1i64
    } else {
        0i64
    }) - (if input.cam_down || (old_locked && input.down) {
        1i64
    } else {
        0i64
    });
    let toggling = input.toggle_lock && player_pos.is_some();
    let centering = toggling && !old_locked;
    let new_locked = if toggling {
        !old_locked
    } else {
        old_locked
    };
    let (base_x, base_y): (i64, i64) = if centering {
        let p = player_pos.unwrap();
        (p.x, p.y)
    } else {
        (cam.transform.pos.x, cam.transform.pos.y)
    };
    let zd: i64 = (if input.zoom_out {
        config.zoom_step
    } else {
        0i64
    }) - (if input.zoom_in {
        config.zoom_step
    } else {
        0i64
    });
    let scale1 = clamp_i64(cam.scale + zd, ZOOM_MIN, config.zoom_max);
    let pan_x = crate::fixp::mul3_tdiv_s2(kx * SCALE, PLAYER_SPEED, dt);
    let pan_y = crate::fixp::mul3_tdiv_s2(ky * SCALE, PLAYER_SPEED, dt);
    proof {
        crate::fixp::lemma_mul3_range(
            kx as int * SCALE,
            PLAYER_SPEED as int,
            dt as int,
            1000,
            300_000,
            10_000,
        );
        crate::fixp::lemma_tdiv_bound(
            kx as int * SCALE * PLAYER_SPEED * dt,
            1_000_000,
            3_000_000_000_000,
        );
        crate::fixp::lemma_mul3_range(
            ky as int * SCALE,
            PLAYER_SPEED as int,
            dt as int,
            1000,
            300_000,
            10_000,
        );
        crate::fixp::lemma_tdiv_bound(
            ky as int * SCALE * PLAYER_SPEED * dt,
            1_000_000,
            3_000_000_000_000,
        );
    }
    let px = clamp_i64(base_x + pan_x, -WORLD_BOUND, WORLD_BOUND);
    let py = clamp_i64(base_y + pan_y, -WORLD_BOUND, WORLD_BOUND);
    cam.locked = new_locked;
    cam.scale = scale1;
    cam.transform.pos = Vec3Fx { x: px, y: py, z: cam.transform.pos.z };
}

/// The camera after a whole sequence of ticks, each a triple of optional
/// player position, input and time delta.
pub open spec fn camera_run(
    cam: MainCamera,
    steps: Seq<(Option<Vec3Fx>, InputState, int)>,
    config: Config,
) -> MainCamera
    decreases steps.len(),
{
    if steps.len() == 0 {
        cam
    } else {
        camera_run(
            camera_step(cam, steps[0].0, steps[0].1, config, steps[0].2),
            steps.drop_first(),
            config,
        )
    }
}

/// However long the input sequence and however many of its ticks hold a
/// zoom key, the zoom scale never ends below the floor.
pub proof fn lemma_zoom_never_below_floor(
    cam: MainCamera,
    steps: Seq<(Option<Vec3Fx>, InputState, int)>,
    config: Config,
)
    requires
        config.wf(),
        steps.len() > 0 || cam.scale >= ZOOM_MIN,
    ensures
        camera_run(cam, steps, config).scale >= ZOOM_MIN,
    decreases steps.len(),
{
    if steps.len() > 0 {
        let c1 = camera_step(cam, steps[0].0, steps[0].1, config, steps[0].2);
        assert(c1.scale >= ZOOM_MIN);
        lemma_zoom_never_below_floor(c1, steps.drop_first(), config);
    }
}

/// Toggling the camera from `Unlocked` to `Locked` while a player exists
/// recentres the camera exactly on the player: with no pan key held that
/// tick, the new plane position is the player's and the depth coordinate is
/// unchanged.
pub proof fn lemma_lock_centers_on_player(
    cam: MainCamera,
    p: Vec3Fx,
    input: InputState,
    config: Config,
    dt: int,
)
    requires
        config.wf(),
        !cam.locked,
        input.toggle_lock,
        cam_key_x(input, cam.locked) == 0,
        cam_key_y(input, cam.locked) == 0,
        p.in_world(),
    ensures
        camera_step(cam, Some(p), input, config, dt).transform.pos.x == p.x,
        camera_step(cam, Some(p), input, config, dt).transform.pos.y == p.y,
        camera_step(cam, Some(p), input, config, dt).transform.pos.z == cam.transform.pos.z,
        camera_step(cam, Some(p), input, config, dt).locked,
{
    assert(cam_key_x(input, cam.locked) * SCALE * PLAYER_SPEED * dt == 0) by (nonlinear_arith)
        requires
            cam_key_x(input, cam.locked) == 0,
    ;
    assert(cam_key_y(input, cam.locked) * SCALE * PLAYER_SPEED * dt == 0) by (nonlinear_arith)
        requires
            cam_key_y(input, cam.locked) == 0,
    ;
    vstd::arithmetic::div_mod::lemma_basic_div(0, SCALE as int * SCALE as int);
}

} // verus!
