//! End-to-end scenarios for the impulse block against the shared
//! simulation, including the fail-fast, all-or-nothing policy: on a stale
//! handle the whole activation fails and no body is touched.

use flowblocks::binding::ParamValue;
use flowblocks::context::{ExecContext, RIGID_BODY_TAG, SIMULATION_TAG};
use flowblocks::error::ErrorKind;
use flowblocks::forces::ImpulseBlock;
use flowblocks::simulation::{BodyGroup, BodyHandle, RigidBodyState, Simulation};
use flowblocks::value::{ObjectRef, TaggedValue, Vec3};

fn zero_body() -> RigidBodyState {
    RigidBodyState {
        position: Vec3 { x: 0, y: 0, z: 0 },
        velocity: Vec3 { x: 0, y: 0, z: 0 },
    }
}

/// Publish a simulation with two bodies and their collection in a
/// context, as a body-creation block would during its activation.
fn scenario() -> (ExecContext, ObjectRef, BodyHandle, BodyHandle, ImpulseBlock) {
    let mut ctx = ExecContext::new();
    let mut sim = Simulation::new();
    let h1 = sim.create_body(zero_body());
    let h2 = sim.create_body(zero_body());
    let mut group = BodyGroup::new();
    group.add(h1);
    group.add(h2);
    let simref = ctx.add_simulation(sim);
    let rbref = ctx.add_body_group(group);

    let i = ctx.resolve_slot(&"Physics.Simulation".to_string());
    ctx.write_slot(i, TaggedValue::Object(simref));
    let j = ctx.resolve_slot(&"my.bodies".to_string());
    ctx.write_slot(j, TaggedValue::Object(rbref));

    let mut block = ImpulseBlock::new();
    block
        .set_param(0, &ParamValue::Named("my.bodies".to_string()))
        .unwrap();
    block.warmup(&mut ctx).unwrap();
    (ctx, simref, h1, h2, block)
}

#[test]
fn impulse_applies_to_exactly_the_collected_bodies() {
    let (mut ctx, simref, h1, h2, block) = scenario();

    // A third body outside the collection must stay untouched.
    let h3 = ctx.sim_mut(simref).create_body(zero_body());

    let input = TaggedValue::Vector3(Vec3 { x: 0, y: 1, z: 0 });
    let out = block.activate(&mut ctx, &input).unwrap();
    assert_eq!(out.as_vector3().unwrap(), Vec3 { x: 0, y: 1, z: 0 });

    let sim = ctx.sim_ref(simref);
    assert_eq!(sim.body_state(h1).unwrap().velocity, Vec3 { x: 0, y: 1, z: 0 });
    assert_eq!(sim.body_state(h2).unwrap().velocity, Vec3 { x: 0, y: 1, z: 0 });
    assert_eq!(sim.body_state(h3).unwrap().velocity, Vec3 { x: 0, y: 0, z: 0 });

    // Repeated activation accumulates.
    let mut block = block;
    block.activate(&mut ctx, &input).unwrap();
    let sim = ctx.sim_ref(simref);
    assert_eq!(sim.body_state(h1).unwrap().velocity, Vec3 { x: 0, y: 2, z: 0 });

    block.cleanup();
}

#[test]
fn impulse_fails_fast_on_a_removed_body_and_touches_nothing() {
    let (mut ctx, simref, h1, h2, block) = scenario();

    // Remove the second body directly from the simulation; the
    // collection still lists its stale handle.
    assert!(ctx.sim_mut(simref).remove_body(h2));

    let input = TaggedValue::Vector3(Vec3 { x: 0, y: 1, z: 0 });
    let err = block.activate(&mut ctx, &input).unwrap_err();
    assert_eq!(err.kind, ErrorKind::NotFound);
    assert_eq!(err.message, "RigidBody not found in the simulation");

    // All-or-nothing: the live body ahead of the stale handle is left
    // untouched.
    let sim = ctx.sim_ref(simref);
    assert_eq!(sim.body_state(h1).unwrap().velocity, Vec3 { x: 0, y: 0, z: 0 });
}

#[test]
fn impulse_with_empty_collection_passes_any_input_through() {
    // A collection with no handles asks for no work: the input passes
    // through untouched without being read, whatever its shape.
    let mut ctx = ExecContext::new();
    let mut sim = Simulation::new();
    let h = sim.create_body(zero_body());
    let simref = ctx.add_simulation(sim);
    let rbref = ctx.add_body_group(BodyGroup::new());
    let i = ctx.resolve_slot(&"Physics.Simulation".to_string());
    ctx.write_slot(i, TaggedValue::Object(simref));
    let j = ctx.resolve_slot(&"my.bodies".to_string());
    ctx.write_slot(j, TaggedValue::Object(rbref));

    let mut block = ImpulseBlock::new();
    block
        .set_param(0, &ParamValue::Named("my.bodies".to_string()))
        .unwrap();
    block.warmup(&mut ctx).unwrap();

    let out = block
        .activate(&mut ctx, &TaggedValue::Str("not a vector".to_string()))
        .unwrap();
    assert_eq!(out.as_str().unwrap().as_str(), "not a vector");
    // Nothing in the simulation moved.
    let sim = ctx.sim_ref(simref);
    assert_eq!(sim.body_state(h).unwrap().velocity, Vec3 { x: 0, y: 0, z: 0 });
}

#[test]
fn impulse_reports_missing_simulation_and_collection() {
    // No variables at all: the simulation does not resolve.
    let mut ctx = ExecContext::new();
    let mut block = ImpulseBlock::new();
    block
        .set_param(0, &ParamValue::Named("my.bodies".to_string()))
        .unwrap();
    block.warmup(&mut ctx).unwrap();
    let input = TaggedValue::Vector3(Vec3 { x: 1, y: 0, z: 0 });
    let err = block.activate(&mut ctx, &input).unwrap_err();
    assert_eq!(err.kind, ErrorKind::NotFound);
    assert_eq!(err.message, "Physics simulation not found");

    // With the simulation in place but no collection value, the
    // collection fails to resolve.
    let mut sim = Simulation::new();
    let _ = sim.create_body(zero_body());
    let simref = ctx.add_simulation(sim);
    let i = ctx.resolve_slot(&"Physics.Simulation".to_string());
    ctx.write_slot(i, TaggedValue::Object(simref));
    let err = block.activate(&mut ctx, &input).unwrap_err();
    assert_eq!(err.kind, ErrorKind::NotFound);
    assert_eq!(err.message, "RigidBody not found");
}

#[test]
fn impulse_rejects_a_forged_type_tag() {
    let (mut ctx, simref, _h1, _h2, block) = scenario();

    // Overwrite the simulation variable with a reference whose tag is
    // wrong for its declared type: the tag check must reject it.
    let forged = TaggedValue::Object(ObjectRef { slot: simref.slot, tag: RIGID_BODY_TAG });
    let i = ctx.resolve_slot(&"Physics.Simulation".to_string());
    ctx.write_slot(i, forged);

    let input = TaggedValue::Vector3(Vec3 { x: 1, y: 0, z: 0 });
    let err = block.activate(&mut ctx, &input).unwrap_err();
    assert_eq!(err.kind, ErrorKind::TypeTagMismatch);
    assert_eq!(err.message, "Physics simulation not found");
}

#[test]
fn impulse_rejects_a_non_vector_input() {
    let (mut ctx, _simref, _h1, _h2, block) = scenario();
    let err = block.activate(&mut ctx, &TaggedValue::Int(1)).unwrap_err();
    assert_eq!(err.kind, ErrorKind::ShapeMismatch);
}

#[test]
fn impulse_declares_its_dependencies_statically() {
    let mut block = ImpulseBlock::new();
    {
        let reqs = block.required_variables();
        assert_eq!(reqs.len(), 1);
        assert_eq!(reqs[0].name, "Physics.Simulation");
        assert_eq!(reqs[0].tag, SIMULATION_TAG);
    }

    block
        .set_param(0, &ParamValue::Named("my.bodies".to_string()))
        .unwrap();
    let reqs = block.required_variables();
    assert_eq!(reqs.len(), 2);
    assert_eq!(reqs[1].name, "my.bodies");
    assert_eq!(reqs[1].tag, RIGID_BODY_TAG);

    // The parameter reads back as the variable name.
    match block.get_param(0) {
        ParamValue::Named(n) => assert_eq!(n, "my.bodies"),
        _ => panic!("expected a named parameter"),
    }
}
