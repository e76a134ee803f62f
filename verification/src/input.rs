//! Input translation: polled device state to world-space movement and aim.
//!
//! The host polls the input device once per tick and fills an
//! [`InputState`]; nothing here blocks or waits.  Movement keys sum to a
//! direction vector, and a fire trigger together with a cursor position
//! unprojects through the camera into a world-space aim.

use vstd::prelude::*;
use crate::aim::{
    aim_active,
    aim_angle_x,
    aim_angle_y,
    aim_dir_x,
    aim_dir_y,
    unit_x_of,
    unit_y_of,
    AimAngle,
};
use crate::camera::MainCamera;
use crate::config::{Config, DiagonalMode, FireMode};
use crate::fixp::{clamp_i64, clamp_spec, iabs, tdiv, AIM_BOUND, DT_MAX, SCALE, VIEW_MAX, WORLD_BOUND,
    ZOOM_CAP};
use crate::geom::{Vec2Fx, Vec3Fx};
use crate::store::{Player, PlayerBulletFireEvent, PLAYER_SIZE};

verus! {

/// The size of the camera's display window, in pixels.
#[derive(Clone, Copy, PartialEq, Eq, Structural, Debug)]
pub struct Viewport {
    pub width: i64,
    pub height: i64,
}

impl Viewport {
    /// Positive and within the largest supported size.
    pub open spec fn wf(self) -> bool {
        &&& 0 < self.width <= VIEW_MAX
        &&& 0 < self.height <= VIEW_MAX
    }
}

/// One tick's polled input: key and button state plus the cursor position,
/// which is absent whenever the cursor is outside the viewport.
#[derive(Clone, Copy, PartialEq, Eq, Structural, Debug)]
pub struct InputState {
    /// Player movement keys.
    pub up: bool,
    pub down: bool,
    pub left: bool,
    pub right: bool,
    /// Dedicated camera pan keys.
    pub cam_up: bool,
    pub cam_down: bool,
    pub cam_left: bool,
    pub cam_right: bool,
    /// The camera lock toggle key went down this tick.
    pub toggle_lock: bool,
    /// Zoom keys: out grows the scale, in shrinks it.
    pub zoom_out: bool,
    pub zoom_in: bool,
    /// The fire button is held this tick.
    pub fire_held: bool,
    /// The fire button went down this tick.
    pub fire_pressed: bool,
    /// Cursor position in pixels from the viewport's lower-left corner, if
    /// the cursor is inside the viewport.
    pub cursor: Option<Vec2Fx>,
}

impl InputState {
    /// Any cursor position lies inside the viewport.
    pub open spec fn wf(self, vp: Viewport) -> bool {
        match self.cursor {
            Some(c) => 0 <= c.x <= vp.width && 0 <= c.y <= vp.height,
            None => true,
        }
    }

    /// No key held, nothing pressed, no cursor.
    pub fn idle() -> (s: InputState)
        ensures
            s == (InputState {
                up: false,
                down: false,
                left: false,
                right: false,
                cam_up: false,
                cam_down: false,
                cam_left: false,
                cam_right: false,
                toggle_lock: false,
                zoom_out: false,
                zoom_in: false,
                fire_held: false,
                fire_pressed: false,
                cursor: None::<Vec2Fx>,
            }),
    {
        InputState {
            up: false,
            down: false,
            left: false,
            right: false,
            cam_up: false,
            cam_down: false,
            cam_left: false,
            cam_right: false,
            toggle_lock: false,
            zoom_out: false,
            zoom_in: false,
            fire_held: false,
            fire_pressed: false,
            cursor: None,
        }
    }
}

/// Sum of a plus-key and a minus-key: one of `-1`, `0`, `1`.
pub open spec fn key_axis(minus: bool, plus: bool) -> int {
    (if plus {
        1int
    } else {
        0int
    }) - (if minus {
        1int
    } else {
        0int
    })
}

/// Horizontal player key sum.
pub open spec fn move_key_x(input: InputState) -> int {
    key_axis(input.left, input.right)
}

/// Vertical player key sum.
pub open spec fn move_key_y(input: InputState) -> int {
    key_axis(input.down, input.up)
}

/// First component of the movement direction: the raw key sum scaled to
/// fixed-point, or the normalised sum, per configuration.
pub open spec fn move_dir_x(input: InputState, mode: DiagonalMode) -> int {
    let kx = move_key_x(input);
    let ky = move_key_y(input);
    if kx == 0 && ky == 0 {
        0
    } else if mode == DiagonalMode::RawSum {
        kx * SCALE
    } else {
        unit_x_of(kx, ky)
    }
}

/// Second component of the movement direction.
pub open spec fn move_dir_y(input: InputState, mode: DiagonalMode) -> int {
    let kx = move_key_x(input);
    let ky = move_key_y(input);
    if kx == 0 && ky == 0 {
        0
    } else if mode == DiagonalMode::RawSum {
        ky * SCALE
    } else {
        unit_y_of(kx, ky)
    }
}

/// Sums the pressed movement keys into a fixed-point direction vector.
/// Under raw summing a diagonal chord is longer than a unit; under
/// normalisation it is scaled back to (at most) a unit.
pub fn movement_direction(input: &InputState, mode: DiagonalMode) -> (d: Vec2Fx)
    ensures
        d.x as int == move_dir_x(*input, mode),
        d.y as int == move_dir_y(*input, mode),
        iabs(d.x as int) <= SCALE,
        iabs(d.y as int) <= SCALE,
{
    let kx: i64 = (if input.right {
        1i64
    } else {
        0i64
    }) - (if input.left {
        1i64
    } else {
        0i64
    });
    let ky: i64 = (if input.up {
        1i64
    } else {
        0i64
    }) - (if input.down {
        1i64
    } else {
        0i64
    });
    if kx == 0 && ky == 0 {
        Vec2Fx { x: 0, y: 0 }
    } else {
        match mode {
            DiagonalMode::RawSum => Vec2Fx { x: kx * SCALE, y: ky * SCALE },
            DiagonalMode::Normalized => crate::aim::normalize_dir(kx, ky),
        }
    }
}

/// A cursor coordinate, normalised into device coordinates: pixels in
/// `[0, extent]` map onto `[-SCALE, SCALE]`, fixed-point for `[-1, 1]`.
pub open spec fn ndc_of(c: int, extent: int) -> int {
    tdiv(c * 2 * SCALE, extent) - SCALE
}

/// Normalises one cursor coordinate into device coordinates.
pub fn ndc_coord(c: i64, extent: i64) -> (r: i64)
    requires
        0 <= c <= extent,
        0 < extent <= VIEW_MAX,
    ensures
        r as int == ndc_of(c as int, extent as int),
        -SCALE <= r <= SCALE,
{
    let q: u64 = (c as u64 * 2000) / (extent as u64);
    proof {
        assert(c as int * 2 * SCALE == c as int * 2000);
        vstd::arithmetic::div_mod::lemma_div_pos_is_pos(c as int * 2000, extent as int);
        vstd::arithmetic::div_mod::lemma_div_is_ordered(
            c as int * 2000,
            extent as int * 2000,
            extent as int,
        );
        vstd::arithmetic::div_mod::lemma_div_multiples_vanish(2000, extent as int);
    }
    (q as i64) - SCALE
}

/// Horizontal world coordinate of a cursor position, unprojected through
/// the camera: the camera's position plus the device coordinate, scaled by
/// the zoom and half the viewport extent.
pub open spec fn unproject_x(cam: MainCamera, cursor_x: int, vp_width: int) -> int {
    cam.transform.pos.x + tdiv(
        ndc_of(cursor_x, vp_width) * cam.scale * (vp_width * SCALE / 2),
        SCALE as int * SCALE as int,
    )
}

/// Vertical world coordinate of a cursor position, unprojected through the
/// camera.
pub open spec fn unproject_y(cam: MainCamera, cursor_y: int, vp_height: int) -> int {
    cam.transform.pos.y + tdiv(
        ndc_of(cursor_y, vp_height) * cam.scale * (vp_height * SCALE / 2),
        SCALE as int * SCALE as int,
    )
}

/// Unprojects a cursor position into the world-space point under it, for an
/// axis-aligned orthographic camera: device coordinates, scaled by zoom and
/// half the viewport, offset by the camera's position.
pub fn unproject(cam: &MainCamera, cursor: Vec2Fx, vp: Viewport) -> (w: Vec2Fx)
    requires
        cam.transform.wf(),
        0 <= cam.scale <= ZOOM_CAP,
        vp.wf(),
        0 <= cursor.x <= vp.width,
        0 <= cursor.y <= vp.height,
    ensures
        w.x as int == unproject_x(*cam, cursor.x as int, vp.width as int),
        w.y as int == unproject_y(*cam, cursor.y as int, vp.height as int),
        iabs(w.x as int) <= AIM_BOUND,
        iabs(w.y as int) <= AIM_BOUND,
{
    let nx = ndc_coord(cursor.x, vp.width);
    let ny = ndc_coord(cursor.y, vp.height);
    let half_w: i64 = vp.width * 500;
    let half_h: i64 = vp.height * 500;
    proof {
        assert(half_w as int == vp.width as int * SCALE / 2);
        assert(half_h as int == vp.height as int * SCALE / 2);
    }
    let off_x = crate::fixp::mul3_tdiv_s2(nx, cam.scale, half_w);
    let off_y = crate::fixp::mul3_tdiv_s2(ny, cam.scale, half_h);
    proof {
        crate::fixp::lemma_mul3_range(
            nx as int,
            cam.scale as int,
            half_w as int,
            1000,
            1_000_000,
            8_192_000,
        );
        crate::fixp::lemma_tdiv_bound(
            nx as int * cam.scale * half_w,
            1_000_000,
            8_192_000_000_000_000,
        );
        crate::fixp::lemma_mul3_range(
            ny as int,
            cam.scale as int,
            half_h as int,
            1000,
            1_000_000,
            8_192_000,
        );
        crate::fixp::lemma_tdiv_bound(
            ny as int * cam.scale * half_h,
            1_000_000,
            8_192_000_000_000_000,
        );
    }
    Vec2Fx { x: cam.transform.pos.x + off_x, y: cam.transform.pos.y + off_y }
}

/// Whether this tick's input pulls the trigger, under the configured fire
/// mode.
pub open spec fn fire_triggered(input: InputState, config: Config) -> bool {
    match config.fire {
        FireMode::EdgeTriggered => input.fire_pressed,
        FireMode::Continuous => input.fire_held,
    }
}

/// The spawn event of one tick, if any.  An event is emitted exactly when
/// the trigger is pulled, a camera exists, the cursor is inside the
/// viewport, and the unprojected click misses the player's own position;
/// otherwise emission is skipped silently.  The event carries the unit
/// direction from player to click, the exact aim angle, and an origin
/// offset from the player's centre by the player's radius along the
/// direction.
pub open spec fn fire_event_spec(
    player: Player,
    camera: Option<MainCamera>,
    input: InputState,
    vp: Viewport,
    config: Config,
) -> Option<PlayerBulletFireEvent> {
    if !fire_triggered(input, config) {
        None
    } else {
        match camera {
            None => None,
            Some(cam) => match input.cursor {
                None => None,
                Some(cur) => {
                    let wpt = Vec2Fx {
                        x: unproject_x(cam, cur.x as int, vp.width as int) as i64,
                        y: unproject_y(cam, cur.y as int, vp.height as int) as i64,
                    };
                    let pp = player.transform.pos.plane_spec();
                    if !aim_active(pp, wpt) {
                        None
                    } else {
                        Some(
                            PlayerBulletFireEvent {
                                pos: Vec2Fx {
                                    x: clamp_spec(
                                        pp.x + tdiv(aim_dir_x(pp, wpt) * PLAYER_SIZE, SCALE as int),
                                        -WORLD_BOUND as int,
                                        WORLD_BOUND as int,
                                    ) as i64,
                                    y: clamp_spec(
                                        pp.y + tdiv(aim_dir_y(pp, wpt) * PLAYER_SIZE, SCALE as int),
                                        -WORLD_BOUND as int,
                                        WORLD_BOUND as int,
                                    ) as i64,
                                },
                                dir: Vec2Fx {
                                    x: aim_dir_x(pp, wpt) as i64,
                                    y: aim_dir_y(pp, wpt) as i64,
                                },
                                angle: AimAngle {
                                    x: aim_angle_x(pp, wpt) as i64,
                                    y: aim_angle_y(pp, wpt) as i64,
                                },
                            },
                        )
                    }
                },
            },
        }
    }
}

/// The player's plane position after one tick of movement: the movement
/// direction, scaled by speed and the time delta, added and clamped into
/// the world.
pub open spec fn player_move_x(player: Player, input: InputState, config: Config, dt: int) -> int {
    clamp_spec(
        player.transform.pos.x + tdiv(
            move_dir_x(input, config.diagonal) * player.speed * dt,
            SCALE as int * SCALE as int,
        ),
        -WORLD_BOUND as int,
        WORLD_BOUND as int,
    )
}

/// The player's vertical position after one tick of movement.
pub open spec fn player_move_y(player: Player, input: InputState, config: Config, dt: int) -> int {
    clamp_spec(
        player.transform.pos.y + tdiv(
            move_dir_y(input, config.diagonal) * player.speed * dt,
            SCALE as int * SCALE as int,
        ),
        -WORLD_BOUND as int,
        WORLD_BOUND as int,
    )
}

/// One tick of player control: moves the player by the summed key
/// direction, preserving the depth coordinate, and translates a pulled
/// trigger into at most one spawn event.  The aim is computed from the
/// position the tick began with, before the movement of the same tick.
/// With no camera, no cursor, or a click exactly on the player, the event
/// is skipped and `None` is returned.
pub fn player_control(
    player: &mut Player,
    camera: Option<MainCamera>,
    input: &InputState,
    vp: Viewport,
    config: &Config,
    dt: i64,
) -> (ev: Option<PlayerBulletFireEvent>)
    requires
        old(player).wf(),
        config.wf(),
        vp.wf(),
        input.wf(vp),
        0 <= dt <= DT_MAX,
        (match camera {
            Some(c) => c.wf(*config),
            None => true,
        }),
    ensures
        final(player).transform.pos.x as int == player_move_x(*old(player), *input, *config,
            dt as int),
        final(player).transform.pos.y as int == player_move_y(*old(player), *input, *config,
            dt as int),
        final(player).transform.pos.z == old(player).transform.pos.z,
        final(player).transform.rot == old(player).transform.rot,
        final(player).speed == old(player).speed,
        final(player).gun == old(player).gun,
        final(player).wf(),
        ev == fire_event_spec(*old(player), camera, *input, vp, *config),
        (match ev {
            Some(e) => e.wf(),
            None => true,
        }),
{
    let pre: Player = *player;
    let d = movement_direction(input, config.diagonal);
    let step_x = crate::fixp::mul3_tdiv_s2(d.x, player.speed, dt);
    let step_y = crate::fixp::mul3_tdiv_s2(d.y, player.speed, dt);
    proof {
        crate::fixp::lemma_mul3_range(d.x as int, player.speed as int, dt as int, 1000,
            10_000_000, 10_000);
        crate::fixp::lemma_tdiv_bound(d.x as int * player.speed * dt, 1_000_000,
            100_000_000_000_000);
        crate::fixp::lemma_mul3_range(d.y as int, player.speed as int, dt as int, 1000,
            10_000_000, 10_000);
        crate::fixp::lemma_tdiv_bound(d.y as int * player.speed * dt, 1_000_000,
            100_000_000_000_000);
    }
    let nx = clamp_i64(player.transform.pos.x + step_x, -WORLD_BOUND, WORLD_BOUND);
    let ny = clamp_i64(player.transform.pos.y + step_y, -WORLD_BOUND, WORLD_BOUND);
    player.transform.pos = Vec3Fx { x: nx, y: ny, z: player.transform.pos.z };
    let fire = match config.fire {
        FireMode::EdgeTriggered => input.fire_pressed,
        FireMode::Continuous => input.fire_held,
    };
    if !fire {
        return None;
    }
    let cam = match camera {
        Some(c) => c,
        None => {
            return None;
        },
    };
    let cur = match input.cursor {
        Some(c) => c,
        None => {
            return None;
        },
    };
    let wpt = unproject(&cam, cur, vp);
    let pp = pre.transform.pos.plane();
    match crate::aim::compute_aim(pp, wpt) {
        None => None,
        Some((dir, angle)) => {
            let off_x = crate::fixp::mul_tdiv(dir.x, PLAYER_SIZE, SCALE);
            let off_y = crate::fixp::mul_tdiv(dir.y, PLAYER_SIZE, SCALE);
            proof {
                crate::fixp::lemma_tdiv_bound(dir.x as int * PLAYER_SIZE, SCALE as int,
                    20_000_000);
                crate::fixp::lemma_tdiv_bound(dir.y as int * PLAYER_SIZE, SCALE as int,
                    20_000_000);
            }
            let ox = clamp_i64(pp.x + off_x, -WORLD_BOUND, WORLD_BOUND);
            let oy = clamp_i64(pp.y + off_y, -WORLD_BOUND, WORLD_BOUND);
            Some(PlayerBulletFireEvent { pos: Vec2Fx { x: ox, y: oy }, dir, angle })
        },
    }
}

} // verus!
