use shooter2d::commands::{
    event_handler, integrate_entities, move_entity, process_entity, CommandOutcome,
};
use shooter2d::config::Config;
use shooter2d::geom::{Vec2Fx, Vec3Fx};
use shooter2d::store::{entity_setup, CommandQueue, QueueEvent, ScriptedEntity, Transform};

fn entity_at(x: i64, y: i64, queue: Vec<QueueEvent>) -> ScriptedEntity {
    ScriptedEntity {
        kind: "Example".to_string(),
        transform: Transform { pos: Vec3Fx { x, y, z: 0 }, rot: None },
        velocity: Vec2Fx { x: 0, y: 0 },
        speed: 10_000,
        queue: CommandQueue(queue),
    }
}

#[test]
fn travel_to_current_position_completes_first_tick() {
    // A travel intent whose target is the entity's own position, met with
    // zero velocity, is dequeued on the very tick it is first processed.
    let target = Vec2Fx { x: 500, y: 600 };
    let mut e = entity_at(500, 600, vec![QueueEvent::TravelEvent(target)]);
    let outcome = process_entity(&mut e, 0);
    assert!(matches!(outcome, CommandOutcome::Arrived));
    assert!(e.queue.0.is_empty());
}

#[test]
fn attack_is_an_explicit_unimplemented_point() {
    let mut e = entity_at(0, 0, vec![QueueEvent::AttackEvent]);
    let outcome = process_entity(&mut e, 0);
    assert!(matches!(outcome, CommandOutcome::AttackUnimplemented));
    // The intent stays queued and nothing changed, so a test sees it.
    assert_eq!(e.queue.0.len(), 1);
    assert_eq!((e.velocity.x, e.velocity.y), (0, 0));
}

#[test]
fn empty_queue_is_idle() {
    let mut e = entity_at(3, 4, vec![]);
    let outcome = process_entity(&mut e, 0);
    assert!(matches!(outcome, CommandOutcome::Idle));
    assert_eq!((e.transform.pos.x, e.transform.pos.y), (3, 4));
}

#[test]
fn steering_signs_point_toward_the_target() {
    // Above the target on one axis, below on the other: the velocity is
    // set to full speed toward the target on each.
    let mut vel = Vec2Fx { x: 0, y: 0 };
    let pos = Transform { pos: Vec3Fx { x: 100, y: 0, z: 0 }, rot: None };
    let dest = Vec2Fx { x: 50, y: 200 };
    let done = move_entity(&mut vel, &dest, &pos, 10_000, 0);
    assert!(!done);
    assert_eq!((vel.x, vel.y), (-10_000, 10_000));
}

#[test]
fn arrival_within_tolerance_leaves_velocity() {
    let mut vel = Vec2Fx { x: 0, y: 0 };
    let pos = Transform { pos: Vec3Fx { x: 100, y: 200, z: 0 }, rot: None };
    let dest = Vec2Fx { x: 103, y: 196 };
    let done = move_entity(&mut vel, &dest, &pos, 10_000, 5);
    assert!(done);
    assert_eq!((vel.x, vel.y), (0, 0));
}

#[test]
fn exact_tolerance_requires_equality() {
    let mut vel = Vec2Fx { x: 0, y: 0 };
    let pos = Transform { pos: Vec3Fx { x: 100, y: 200, z: 0 }, rot: None };
    let dest = Vec2Fx { x: 101, y: 200 };
    let done = move_entity(&mut vel, &dest, &pos, 10_000, 0);
    assert!(!done);
    assert_eq!((vel.x, vel.y), (10_000, 0));
}

#[test]
fn projection_counts_current_velocity() {
    // The arrival test projects one velocity ahead: position 90 with
    // velocity 10 meets a target of 100 exactly.
    let mut vel = Vec2Fx { x: 10, y: 0 };
    let pos = Transform { pos: Vec3Fx { x: 90, y: 0, z: 0 }, rot: None };
    let dest = Vec2Fx { x: 100, y: 0 };
    let done = move_entity(&mut vel, &dest, &pos, 10_000, 0);
    assert!(done);
    assert_eq!(vel.x, 10);
}

#[test]
fn journey_completes_within_tolerance() {
    // A 50-unit journey at 10 units per second, with a 10-unit arrival
    // tolerance: the intent is dequeued once the projected position comes
    // within tolerance of the target, and the velocity is left as it was.
    let mut cfg = Config::standard();
    cfg.arrive_tolerance = 10_000;
    let target = Vec2Fx { x: 50_000, y: 50_000 };
    let mut entities = vec![entity_at(0, 0, vec![QueueEvent::TravelEvent(target)])];
    let mut ticks = 0;
    while !entities[0].queue.0.is_empty() {
        event_handler(&mut entities, &cfg);
        integrate_entities(&mut entities, 100);
        ticks += 1;
        assert!(ticks < 100, "the journey must complete");
    }
    // Arrival happened when position plus velocity first came within 10
    // units of the 50-unit target: at 30 units, 31 ticks out.
    assert_eq!(ticks, 31);
    assert_eq!(
        (entities[0].transform.pos.x, entities[0].transform.pos.y),
        (31_000, 31_000)
    );
    assert_eq!((entities[0].velocity.x, entities[0].velocity.y), (10_000, 10_000));
}

#[test]
fn example_entity_travels_toward_its_target() {
    let cfg = Config::standard();
    let mut entities = vec![entity_setup()];
    event_handler(&mut entities, &cfg);
    assert_eq!((entities[0].velocity.x, entities[0].velocity.y), (10_000, 10_000));
    assert_eq!(entities[0].queue.0.len(), 1);
    integrate_entities(&mut entities, 100);
    // Ten units per second for a tenth of a second: one unit per axis.
    assert_eq!(
        (entities[0].transform.pos.x, entities[0].transform.pos.y),
        (1000, 1000)
    );
    assert_eq!(entities[0].transform.pos.z, 0);
}
