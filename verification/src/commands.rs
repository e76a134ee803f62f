//! Scripted-entity command processing.
//!
//! Each tick peeks the front intent of an entity's queue.  A travel intent
//! steers per axis: the position projected one velocity ahead is compared
//! against the target, and the velocity component is set toward the target
//! unless the axis has arrived within the configured tolerance.  The intent
//! is dequeued only when both axes arrive in the same tick.  A zero
//! tolerance demands exact arrival.  An attack intent is an explicit
//! not-yet-implemented extension point: it reports itself and changes
//! nothing, so a test can detect it triggering unintentionally.

use vstd::prelude::*;
use crate::config::Config;
use crate::fixp::{clamp_spec, iabs, tdiv, DT_MAX, SCALE, SPEED_MAX, WORLD_BOUND};
use crate::geom::Vec2Fx;
use crate::store::{QueueEvent, ScriptedEntity, Transform};

verus! {

/// What processing one entity's queue did this tick.
#[derive(Clone, Copy, PartialEq, Eq, Structural, Debug)]
pub enum CommandOutcome {
    /// The queue was empty; nothing to do.
    Idle,
    /// A travel intent steered the entity and remains queued.
    Moving,
    /// A travel intent arrived on both axes and was dequeued.
    Arrived,
    /// The front intent is an attack, which is not yet implemented; the
    /// intent stays queued and nothing changes.
    AttackUnimplemented,
}

/// An axis has arrived when the position projected one velocity ahead is
/// within the tolerance of the target.
pub open spec fn axis_arrived(pos: int, vel: int, target: int, tol: int) -> bool {
    iabs(pos + vel - target) <= tol
}

/// The axis velocity after one steering step: full speed toward the target,
/// or unchanged once the axis has arrived.
pub open spec fn axis_velocity(pos: int, vel: int, target: int, tol: int, speed: int) -> int {
    if pos + vel > target + tol {
        -speed
    } else if pos + vel < target - tol {
        speed
    } else {
        vel
    }
}

/// The front intent is a travel whose both axes arrive this tick.
pub open spec fn travel_completes(e: ScriptedEntity, tol: int) -> bool {
    e.queue.0@.len() > 0 && match e.queue.0@[0] {
        QueueEvent::TravelEvent(t) => axis_arrived(
            e.transform.pos.x as int,
            e.velocity.x as int,
            t.x as int,
            tol,
        ) && axis_arrived(e.transform.pos.y as int, e.velocity.y as int, t.y as int, tol),
        QueueEvent::AttackEvent => false,
    }
}

/// The outcome one tick of queue processing reports for an entity.
pub open spec fn outcome_of(e: ScriptedEntity, tol: int) -> CommandOutcome {
    if e.queue.0@.len() == 0 {
        CommandOutcome::Idle
    } else {
        match e.queue.0@[0] {
            QueueEvent::TravelEvent(t) => if travel_completes(e, tol) {
                CommandOutcome::Arrived
            } else {
                CommandOutcome::Moving
            },
            QueueEvent::AttackEvent => CommandOutcome::AttackUnimplemented,
        }
    }
}

/// The horizontal velocity an entity holds after one tick of queue
/// processing: steered by a front travel intent, untouched otherwise.
pub open spec fn stepped_velocity_x(e: ScriptedEntity, tol: int) -> int {
    if e.queue.0@.len() == 0 {
        e.velocity.x as int
    } else {
        match e.queue.0@[0] {
            QueueEvent::TravelEvent(t) => axis_velocity(
                e.transform.pos.x as int,
                e.velocity.x as int,
                t.x as int,
                tol,
                e.speed as int,
            ),
            QueueEvent::AttackEvent => e.velocity.x as int,
        }
    }
}

/// The vertical velocity an entity holds after one tick of queue
/// processing.
pub open spec fn stepped_velocity_y(e: ScriptedEntity, tol: int) -> int {
    if e.queue.0@.len() == 0 {
        e.velocity.y as int
    } else {
        match e.queue.0@[0] {
            QueueEvent::TravelEvent(t) => axis_velocity(
                e.transform.pos.y as int,
                e.velocity.y as int,
                t.y as int,
                tol,
                e.speed as int,
            ),
            QueueEvent::AttackEvent => e.velocity.y as int,
        }
    }
}

/// The queue an entity holds after one tick of processing: the front
/// intent is removed exactly when it is a travel that completes.
pub open spec fn stepped_queue(e: ScriptedEntity, tol: int) -> Seq<QueueEvent> {
    if travel_completes(e, tol) {
        e.queue.0@.skip(1)
    } else {
        e.queue.0@
    }
}

/// How one tick of queue processing relates an entity's new state to its
/// old: transform, kind and speed are untouched; a front travel intent
/// steers the velocity per axis and is dequeued exactly when both axes
/// arrive; an empty queue or a front attack intent changes nothing.
pub open spec fn entity_stepped(pre: ScriptedEntity, post: ScriptedEntity, tol: int) -> bool {
    &&& post.kind == pre.kind
    &&& post.transform == pre.transform
    &&& post.speed == pre.speed
    &&& post.velocity.x as int == stepped_velocity_x(pre, tol)
    &&& post.velocity.y as int == stepped_velocity_y(pre, tol)
    &&& post.queue.0@ == stepped_queue(pre, tol)
}

/// Steers a velocity toward a destination, one axis at a time, as an
/// external rigid-body integrator would then consume it; reports whether
/// both axes have arrived within the tolerance.
pub fn move_entity(
    rigid_body: &mut Vec2Fx,
    dest: &Vec2Fx,
    pos: &Transform,
    speed: i64,
    tol: i64,
) -> (done: bool)
    requires
        pos.wf(),
        dest.in_world(),
        iabs(old(rigid_body).x as int) <= SPEED_MAX,
        iabs(old(rigid_body).y as int) <= SPEED_MAX,
        0 <= speed <= SPEED_MAX,
        0 <= tol <= WORLD_BOUND,
    ensures
        final(rigid_body).x as int == axis_velocity(pos.pos.x as int, old(rigid_body).x as int,
            dest.x as int, tol as int, speed as int),
        final(rigid_body).y as int == axis_velocity(pos.pos.y as int, old(rigid_body).y as int,
            dest.y as int, tol as int, speed as int),
        done == (axis_arrived(pos.pos.x as int, old(rigid_body).x as int, dest.x as int,
            tol as int) && axis_arrived(pos.pos.y as int, old(rigid_body).y as int, dest.y as int,
            tol as int)),
{
    let px: i64 = pos.pos.x + rigid_body.x;
    let py: i64 = pos.pos.y + rigid_body.y;
    let mut done_x = false;
    let mut done_y = false;
    if px > dest.x + tol {
        rigid_body.x = -speed;
    } else if px < dest.x - tol {
        rigid_body.x = speed;
    } else {
        done_x = true;
    }
    if py > dest.y + tol {
        rigid_body.y = -speed;
    } else if py < dest.y - tol {
        rigid_body.y = speed;
    } else {
        done_y = true;
    }
    done_x && done_y
}

/// Processes the front of one entity's queue for one tick.
pub fn process_entity(e: &mut ScriptedEntity, tol: i64) -> (outcome: CommandOutcome)
    requires
        old(e).wf(),
        0 <= tol <= WORLD_BOUND,
    ensures
        entity_stepped(*old(e), *final(e), tol as int),
        outcome == outcome_of(*old(e), tol as int),
        final(e).wf(),
{
    if e.queue.0.len() == 0 {
        return CommandOutcome::Idle;
    }
    let front: QueueEvent = e.queue.0[0];
    match front {
        QueueEvent::TravelEvent(t) => {
            let done = move_entity(&mut e.velocity, &t, &e.transform, e.speed, tol);
            if done {
                let _removed = e.queue.0.remove(0);
                proof {
                    assert forall|i: int| 0 <= i < e.queue.0@.len() implies (
                    match #[trigger] e.queue.0@[i] {
                        QueueEvent::TravelEvent(t2) => t2.in_world(),
                        QueueEvent::AttackEvent => true,
                    }) by {
                        assert(e.queue.0@[i] == old(e).queue.0@[i + 1]);
                    }
                }
                CommandOutcome::Arrived
            } else {
                CommandOutcome::Moving
            }
        },
        QueueEvent::AttackEvent => CommandOutcome::AttackUnimplemented,
    }
}

/// Processes every scripted entity's queue for one tick, in table order.
pub fn event_handler(entities: &mut Vec<ScriptedEntity>, config: &Config)
    requires
        forall|i: int| 0 <= i < old(entities)@.len() ==> (#[trigger] old(entities)@[i]).wf(),
        config.wf(),
    ensures
        final(entities)@.len() == old(entities)@.len(),
        forall|i: int|
            0 <= i < old(entities)@.len() ==> entity_stepped(
                old(entities)@[i],
                #[trigger] final(entities)@[i],
                config.arrive_tolerance as int,
            ),
        forall|i: int| 0 <= i < final(entities)@.len() ==> (#[trigger] final(entities)@[i]).wf(),
{
    let mut i: usize = 0;
    while i < entities.len()
        invariant
            i <= entities@.len(),
            entities@.len() == old(entities)@.len(),
            config.wf(),
            forall|j: int| 0 <= j < old(entities)@.len() ==> (#[trigger] old(entities)@[j]).wf(),
            forall|j: int| i <= j < entities@.len() ==> (#[trigger] entities@[j]) == old(
                entities,
            )@[j],
            forall|j: int|
                0 <= j < i ==> entity_stepped(
                    old(entities)@[j],
                    #[trigger] entities@[j],
                    config.arrive_tolerance as int,
                ),
            forall|j: int| 0 <= j < i ==> (#[trigger] entities@[j]).wf(),
        decreases entities@.len() - i,
    {
        let e = &mut entities[i];
        process_entity(e, config.arrive_tolerance);
        i = i + 1;
    }
}

/// An entity's horizontal position after the external integrator consumes
/// its velocity for one tick.
pub open spec fn entity_moved_x(e: ScriptedEntity, dt: int) -> int {
    clamp_spec(
        e.transform.pos.x + tdiv(e.velocity.x as int * dt, SCALE as int),
        -WORLD_BOUND as int,
        WORLD_BOUND as int,
    )
}

/// An entity's vertical position after one tick of integration.
pub open spec fn entity_moved_y(e: ScriptedEntity, dt: int) -> int {
    clamp_spec(
        e.transform.pos.y + tdiv(e.velocity.y as int * dt, SCALE as int),
        -WORLD_BOUND as int,
        WORLD_BOUND as int,
    )
}

/// Integrates every scripted entity's linear velocity for one tick, as the
/// external rigid-body integrator the store delegates to would: each
/// position advances by velocity times the time delta, clamped into the
/// world, with the depth coordinate untouched; nothing else changes.
pub fn integrate_entities(entities: &mut Vec<ScriptedEntity>, dt: i64)
    requires
        forall|i: int| 0 <= i < old(entities)@.len() ==> (#[trigger] old(entities)@[i]).wf(),
        0 <= dt <= DT_MAX,
    ensures
        final(entities)@.len() == old(entities)@.len(),
        forall|i: int|
            0 <= i < old(entities)@.len() ==> {
                let pre = old(entities)@[i];
                let post = #[trigger] final(entities)@[i];
                &&& post.kind == pre.kind
                &&& post.speed == pre.speed
                &&& post.velocity == pre.velocity
                &&& post.queue == pre.queue
                &&& post.transform.pos.x as int == entity_moved_x(pre, dt as int)
                &&& post.transform.pos.y as int == entity_moved_y(pre, dt as int)
                &&& post.transform.pos.z == pre.transform.pos.z
                &&& post.transform.rot == pre.transform.rot
            },
        forall|i: int| 0 <= i < final(entities)@.len() ==> (#[trigger] final(entities)@[i]).wf(),
{
    let mut i: usize = 0;
    while i < entities.len()
        invariant
            i <= entities@.len(),
            entities@.len() == old(entities)@.len(),
            0 <= dt <= DT_MAX,
            forall|j: int| 0 <= j < old(entities)@.len() ==> (#[trigger] old(entities)@[j]).wf(),
            forall|j: int| i <= j < entities@.len() ==> (#[trigger] entities@[j]) == old(
                entities,
            )@[j],
            forall|j: int|
                0 <= j < i ==> {
                    let pre = old(entities)@[j];
                    let post = #[trigger] entities@[j];
                    &&& post.kind == pre.kind
                    &&& post.speed == pre.speed
                    &&& post.velocity == pre.velocity
                    &&& post.queue == pre.queue
                    &&& post.transform.pos.x as int == entity_moved_x(pre, dt as int)
                    &&& post.transform.pos.y as int == entity_moved_y(pre, dt as int)
                    &&& post.transform.pos.z == pre.transform.pos.z
                    &&& post.transform.rot == pre.transform.rot
                },
            forall|j: int| 0 <= j < i ==> (#[trigger] entities@[j]).wf(),
        decreases entities@.len() - i,
    {
        let e = &mut entities[i];
        let step_x = crate::fixp::mul_tdiv(e.velocity.x, dt, crate::fixp::SCALE);
        let step_y = crate::fixp::mul_tdiv(e.velocity.y, dt, crate::fixp::SCALE);
        proof {
            crate::fixp::lemma_mul3_range(e.velocity.x as int, dt as int, 1, SPEED_MAX as int,
                DT_MAX as int, 1);
            crate::fixp::lemma_mul3_range(e.velocity.y as int, dt as int, 1, SPEED_MAX as int,
                DT_MAX as int, 1);
            crate::fixp::lemma_tdiv_bound(e.velocity.x as int * dt, crate::fixp::SCALE as int,
                100_000_000_000);
            crate::fixp::lemma_tdiv_bound(e.velocity.y as int * dt, crate::fixp::SCALE as int,
                100_000_000_000);
        }
        let nx = crate::fixp::clamp_i64(e.transform.pos.x + step_x, -WORLD_BOUND, WORLD_BOUND);
        let ny = crate::fixp::clamp_i64(e.transform.pos.y + step_y, -WORLD_BOUND, WORLD_BOUND);
        e.transform.pos = crate::geom::Vec3Fx { x: nx, y: ny, z: e.transform.pos.z };
        i = i + 1;
    }
}

/// How a whole tick — queue processing, then integration — relates an
/// entity's new state to its old.
pub open spec fn entity_ticked(pre: ScriptedEntity, post: ScriptedEntity, tol: int, dt: int) -> bool {
    &&& post.kind == pre.kind
    &&& post.speed == pre.speed
    &&& post.velocity.x as int == stepped_velocity_x(pre, tol)
    &&& post.velocity.y as int == stepped_velocity_y(pre, tol)
    &&& post.queue.0@ == stepped_queue(pre, tol)
    &&& post.transform.pos.x as int == clamp_spec(
        pre.transform.pos.x + tdiv(stepped_velocity_x(pre, tol) * dt, SCALE as int),
        -WORLD_BOUND as int,
        WORLD_BOUND as int,
    )
    &&& post.transform.pos.y as int == clamp_spec(
        pre.transform.pos.y + tdiv(stepped_velocity_y(pre, tol) * dt, SCALE as int),
        -WORLD_BOUND as int,
        WORLD_BOUND as int,
    )
    &&& post.transform.pos.z == pre.transform.pos.z
    &&& post.transform.rot == pre.transform.rot
}

/// A travel intent whose target equals the entity's current position, met
/// with a zero velocity, completes — and is therefore dequeued — on the
/// very first tick it is processed, under any nonnegative tolerance.
pub proof fn lemma_move_to_current_position_completes(e: ScriptedEntity, tol: int)
    requires
        tol >= 0,
        e.queue.0@.len() > 0,
        e.queue.0@[0] == QueueEvent::TravelEvent(
            Vec2Fx { x: e.transform.pos.x, y: e.transform.pos.y },
        ),
        e.velocity == (Vec2Fx { x: 0, y: 0 }),
    ensures
        travel_completes(e, tol),
        outcome_of(e, tol) == CommandOutcome::Arrived,
{
}

} // verus!
