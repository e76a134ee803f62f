//! The world: the entity store and the fixed per-tick pipeline.
//!
//! One tick runs, in this order and no other: input translation (which may
//! enqueue one spawn event and moves the player, aiming from the position
//! the tick began with), the spawn-event drain, projectile motion
//! integration followed by the configured despawn pass, scripted-entity
//! command processing, and last the camera update, which reads the already
//! updated player position.  The spawn-event queue lives on the tick's
//! stack: every event enqueued in a tick is consumed before the tick ends.

use vstd::prelude::*;
use crate::camera::{camera_step, spawn_camera, MainCamera};
use crate::config::Config;
use crate::fixp::DT_MAX;
use crate::geom::Vec3Fx;
use crate::input::{
    fire_event_spec,
    player_move_x,
    player_move_y,
    InputState,
    Viewport,
};
use crate::projectile::{
    bullet_of,
    bullet_transform_of,
    integrated,
    kept_bullets,
    kept_transforms,
};
use crate::store::{
    entity_setup,
    spawn_player,
    Bullet,
    Player,
    PlayerBulletFireEvent,
    ScriptedEntity,
    Transform,
};

verus! {

/// The whole simulation state: configuration, the player, the camera, the
/// scripted entities, and the projectile tables.
#[derive(Debug)]
pub struct World {
    pub config: Config,
    pub player: Player,
    pub camera: Option<MainCamera>,
    pub entities: Vec<ScriptedEntity>,
    pub bullets: Vec<Bullet>,
    pub bullet_transforms: Vec<Transform>,
}

impl World {
    /// Every component of the store is well formed and the projectile
    /// tables are index-aligned.
    pub open spec fn wf(self) -> bool {
        &&& self.config.wf()
        &&& self.player.wf()
        &&& (match self.camera {
            Some(c) => c.wf(self.config),
            None => true,
        })
        &&& (forall|i: int| 0 <= i < self.entities@.len() ==> (#[trigger] self.entities@[i]).wf())
        &&& self.bullets@.len() == self.bullet_transforms@.len()
        &&& (forall|i: int| 0 <= i < self.bullets@.len() ==> (#[trigger] self.bullets@[i]).wf())
        &&& (forall|i: int|
            0 <= i < self.bullet_transforms@.len() ==> (
            #[trigger] self.bullet_transforms@[i]).wf())
    }

    /// Creates the world: the player and the camera at the origin, the
    /// example scripted entity, and no projectiles.  A world cannot exist
    /// without its player.
    pub fn new(config: Config) -> (w: World)
        requires
            config.wf(),
        ensures
            w.wf(),
            w.config == config,
            w.player == spawn_player_value(),
            w.camera is Some,
            (match w.camera {
                Some(c) => c.locked && c.transform.pos == (Vec3Fx { x: 0, y: 0, z: 0 }),
                None => false,
            }),
            w.entities@.len() == 1,
            w.bullets@.len() == 0,
            w.bullet_transforms@.len() == 0,
    {
        let player = spawn_player();
        let camera = spawn_camera(&config);
        let mut entities: Vec<ScriptedEntity> = Vec::new();
        entities.push(entity_setup());
        World {
            config,
            player,
            camera: Some(camera),
            entities,
            bullets: Vec::new(),
            bullet_transforms: Vec::new(),
        }
    }
}

/// The player value the world starts from.
pub open spec fn spawn_player_value() -> Player {
    Player {
        transform: Transform { pos: Vec3Fx { x: 0, y: 0, z: 0 }, rot: None },
        speed: crate::store::PLAYER_SPEED,
        gun: crate::store::Gun { kind: crate::store::GunKind::Pistol, durability: 100_000 },
    }
}

/// The player's position after the tick's movement phase.
pub open spec fn moved_player_pos(w: World, input: InputState, dt: int) -> Vec3Fx {
    Vec3Fx {
        x: player_move_x(w.player, input, w.config, dt) as i64,
        y: player_move_y(w.player, input, w.config, dt) as i64,
        z: w.player.transform.pos.z,
    }
}

/// The spawn events of one tick: at most the one the input translator
/// emits.
pub open spec fn tick_events(w: World, input: InputState, vp: Viewport) -> Seq<
    PlayerBulletFireEvent,
> {
    match fire_event_spec(w.player, w.camera, input, vp, w.config) {
        Some(e) => seq![e],
        None => Seq::empty(),
    }
}

/// The projectile components after the tick's spawn drain.
pub open spec fn tick_bullets_spawned(w: World, input: InputState, vp: Viewport) -> Seq<Bullet> {
    w.bullets@ + tick_events(w, input, vp).map_values(|e: PlayerBulletFireEvent| bullet_of(e))
}

/// The projectile transforms after the tick's spawn drain.
pub open spec fn tick_btrans_spawned(w: World, input: InputState, vp: Viewport) -> Seq<Transform> {
    w.bullet_transforms@ + tick_events(w, input, vp).map_values(
        |e: PlayerBulletFireEvent| bullet_transform_of(e),
    )
}

/// The projectile transforms after the tick's motion integration.
pub open spec fn tick_btrans_moved(w: World, input: InputState, vp: Viewport, dt: int) -> Seq<
    Transform,
> {
    Seq::new(
        tick_btrans_spawned(w, input, vp).len(),
        |i: int| integrated(tick_btrans_spawned(w, input, vp)[i], tick_bullets_spawned(w, input,
            vp)[i], dt),
    )
}

/// The projectile components that end the tick, after the despawn pass.
pub open spec fn tick_bullets_final(w: World, input: InputState, vp: Viewport, dt: int) -> Seq<
    Bullet,
> {
    match w.config.despawn_radius {
        None => tick_bullets_spawned(w, input, vp),
        Some(r) => kept_bullets(
            tick_bullets_spawned(w, input, vp),
            tick_btrans_moved(w, input, vp, dt),
            r as int,
        ),
    }
}

/// The projectile transforms that end the tick, after the despawn pass.
pub open spec fn tick_btrans_final(w: World, input: InputState, vp: Viewport, dt: int) -> Seq<
    Transform,
> {
    match w.config.despawn_radius {
        None => tick_btrans_moved(w, input, vp, dt),
        Some(r) => kept_transforms(tick_btrans_moved(w, input, vp, dt), r as int),
    }
}

/// The camera that ends the tick: stepped against the already moved player
/// position, or absent as before.
pub open spec fn tick_camera(w: World, input: InputState, dt: int) -> Option<MainCamera> {
    match w.camera {
        None => None,
        Some(c) => Some(camera_step(c, Some(moved_player_pos(w, input, dt)), input, w.config, dt)),
    }
}

impl World {
    /// Advances the world by one tick.
    pub fn tick(&mut self, input: &InputState, vp: Viewport, dt: i64)
        requires
            old(self).wf(),
            vp.wf(),
            input.wf(vp),
            0 <= dt <= DT_MAX,
        ensures
            final(self).wf(),
            final(self).config == old(self).config,
            final(self).player.transform.pos == moved_player_pos(*old(self), *input, dt as int),
            final(self).player.transform.rot == old(self).player.transform.rot,
            final(self).player.speed == old(self).player.speed,
            final(self).player.gun == old(self).player.gun,
            final(self).bullets@ == tick_bullets_final(*old(self), *input, vp, dt as int),
            final(self).bullet_transforms@ == tick_btrans_final(*old(self), *input, vp, dt as int),
            final(self).entities@.len() == old(self).entities@.len(),
            forall|i: int|
                0 <= i < old(self).entities@.len() ==> crate::commands::entity_ticked(
                    old(self).entities@[i],
                    #[trigger] final(self).entities@[i],
                    old(self).config.arrive_tolerance as int,
                    dt as int,
                ),
            final(self).camera == tick_camera(*old(self), *input, dt as int),
    {
        let ghost w0 = *self;
        let config = self.config;
        // Phase 1: input translation — movement, and at most one spawn
        // event, aimed from the position the tick began with.
        let ev = crate::input::player_control(
            &mut self.player,
            self.camera,
            input,
            vp,
            &config,
            dt,
        );
        let mut queue: Vec<PlayerBulletFireEvent> = Vec::new();
        match ev {
            Some(e) => queue.push(e),
            None => (),
        }
        proof {
            assert(queue@ =~= tick_events(w0, *input, vp));
        }
        // Phase 2: drain the queue into new projectiles.
        crate::projectile::spawn_bullet(&mut queue, &mut self.bullets, &mut self.bullet_transforms);
        proof {
            assert(self.bullets@ == tick_bullets_spawned(w0, *input, vp));
            assert(self.bullet_transforms@ == tick_btrans_spawned(w0, *input, vp));
            assert forall|i: int| 0 <= i < self.bullets@.len() implies (
            #[trigger] self.bullets@[i]).wf() by {
                if i >= w0.bullets@.len() {
                    assert(self.bullets@[i] == bullet_of(tick_events(w0, *input, vp)[i
                        - w0.bullets@.len()]));
                }
            }
            assert forall|i: int| 0 <= i < self.bullet_transforms@.len() implies (
            #[trigger] self.bullet_transforms@[i]).wf() by {
                if i >= w0.bullet_transforms@.len() {
                    assert(self.bullet_transforms@[i] == bullet_transform_of(
                        tick_events(w0, *input, vp)[i - w0.bullet_transforms@.len()],
                    ));
                }
            }
        }
        // Phase 3: integrate projectile motion, then the despawn pass.
        crate::projectile::update_bullets(&self.bullets, &mut self.bullet_transforms, dt);
        proof {
            assert(self.bullet_transforms@ =~= tick_btrans_moved(w0, *input, vp, dt as int));
        }
        crate::projectile::despawn_bullets(&mut self.bullets, &mut self.bullet_transforms, &config);
        proof {
            if let Some(r) = config.despawn_radius {
                crate::projectile::lemma_kept_bullets_wf(
                    tick_bullets_spawned(w0, *input, vp),
                    tick_btrans_moved(w0, *input, vp, dt as int),
                    r as int,
                );
                crate::projectile::lemma_kept_transforms_wf(
                    tick_btrans_moved(w0, *input, vp, dt as int),
                    r as int,
                );
            }
        }
        // Phase 4: scripted-entity command processing, then the external
        // integrator's consumption of the steered velocities.
        crate::commands::event_handler(&mut self.entities, &config);
        let ghost mid_entities = self.entities@;
        crate::commands::integrate_entities(&mut self.entities, dt);
        proof {
            assert forall|i: int| 0 <= i < w0.entities@.len() implies crate::commands::entity_ticked(
                w0.entities@[i],
                #[trigger] self.entities@[i],
                w0.config.arrive_tolerance as int,
                dt as int,
            ) by {
                assert(crate::commands::entity_stepped(
                    w0.entities@[i],
                    mid_entities[i],
                    w0.config.arrive_tolerance as int,
                ));
            }
        }
        // Phase 5: the camera reads the already updated player position.
        match &mut self.camera {
            Some(cam) => {
                crate::camera::camera_control(
                    cam,
                    Some(self.player.transform.pos),
                    input,
                    &config,
                    dt,
                );
            },
            None => (),
        }
    }
}

} // verus!
