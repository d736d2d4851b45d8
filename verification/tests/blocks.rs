//! Protocol-level tests: the tagged value model, variable bindings, the
//! native object registry, the block registry, and the browse block.

use flowblocks::binding::{ParamValue, ParamVar};
use flowblocks::browse::{BlockedCall, BrowseBlock};
use flowblocks::context::{ExecContext, RIGID_BODY_TAG, SIMULATION_TAG};
use flowblocks::error::ErrorKind;
use flowblocks::registry::{Activation, BlockInstance, BlockKind, Registry};
use flowblocks::simulation::{BodyGroup, RigidBodyState, Simulation};
use flowblocks::value::{ObjectRef, Shape, TaggedValue, Vec3};

fn zero_body() -> RigidBodyState {
    RigidBodyState {
        position: Vec3 { x: 0, y: 0, z: 0 },
        velocity: Vec3 { x: 0, y: 0, z: 0 },
    }
}

#[test]
fn conversion_succeeds_on_matching_shape() {
    assert_eq!(TaggedValue::Bool(true).as_bool().unwrap(), true);
    assert_eq!(TaggedValue::Int(-7).as_int().unwrap(), -7);
    let v = TaggedValue::Vector3(Vec3 { x: 1, y: 2, z: 3 }).as_vector3().unwrap();
    assert_eq!(v, Vec3 { x: 1, y: 2, z: 3 });
    assert_eq!(TaggedValue::Str("hi".to_string()).as_str().unwrap().as_str(), "hi");
    assert_eq!(
        TaggedValue::Bytes(vec![1, 2, 3]).as_bytes().unwrap(),
        &vec![1u8, 2, 3]
    );
    let seq_val = TaggedValue::Sequence(vec![TaggedValue::Int(1)]);
    assert_eq!(seq_val.as_sequence().unwrap().len(), 1);
}

#[test]
fn conversion_fails_with_shape_mismatch_on_any_other_shape() {
    let v = TaggedValue::Int(5);
    assert_eq!(v.as_bool().unwrap_err().kind, ErrorKind::ShapeMismatch);
    assert_eq!(v.as_bytes().unwrap_err().kind, ErrorKind::ShapeMismatch);
    assert_eq!(v.as_str().unwrap_err().kind, ErrorKind::ShapeMismatch);
    assert_eq!(v.as_vector3().unwrap_err().kind, ErrorKind::ShapeMismatch);
    assert_eq!(v.as_sequence().unwrap_err().kind, ErrorKind::ShapeMismatch);
    assert_eq!(v.as_table().unwrap_err().kind, ErrorKind::ShapeMismatch);
    assert_eq!(v.as_object().unwrap_err().kind, ErrorKind::ShapeMismatch);
    assert_eq!(TaggedValue::Null.as_int().unwrap_err().kind, ErrorKind::ShapeMismatch);
    assert_eq!(v.shape_of(), Shape::Int);
    assert_eq!(TaggedValue::Null.shape_of(), Shape::Null);
}

#[test]
fn deep_clone_decouples_output_from_input() {
    let source = TaggedValue::Sequence(vec![
        TaggedValue::Bytes(vec![1, 2]),
        TaggedValue::Str("abc".to_string()),
    ]);
    let copy = source.deep_clone();
    // Mutating the source must not affect the copy.
    let mut source = source;
    if let TaggedValue::Sequence(items) = &mut source {
        items.clear();
    }
    let items = copy.as_sequence().unwrap();
    assert_eq!(items.len(), 2);
    assert_eq!(items[0].as_bytes().unwrap(), &vec![1u8, 2]);
    assert_eq!(items[1].as_str().unwrap().as_str(), "abc");
}

#[test]
fn object_reinterpretation_checks_the_type_tag() {
    let mut ctx = ExecContext::new();
    let sim = Simulation::new();
    let simref = ctx.add_simulation(sim);
    assert_eq!(simref.tag, SIMULATION_TAG);
    assert!(ctx.resolve_sim(simref).is_ok());

    // A crafted reference with a foreign tag to the same slot must be
    // rejected as a tag mismatch, never downcast.
    let forged = ObjectRef { slot: simref.slot, tag: RIGID_BODY_TAG };
    assert_eq!(ctx.resolve_sim(forged).unwrap_err().kind, ErrorKind::TypeTagMismatch);
    // The matching tag over a slot of the wrong type is "not found".
    assert_eq!(ctx.resolve_bodies(forged).unwrap_err().kind, ErrorKind::NotFound);
    // A dangling slot with the right tag is "not found".
    let dangling = ObjectRef { slot: simref.slot + 1, tag: SIMULATION_TAG };
    assert_eq!(ctx.resolve_sim(dangling).unwrap_err().kind, ErrorKind::NotFound);
}

#[test]
fn write_then_read_through_shared_slot() {
    let mut ctx = ExecContext::new();
    let name = "shared".to_string();

    let mut a = ParamVar::new_literal(TaggedValue::Null);
    a.set_name(&name);
    let mut b = ParamVar::new_literal(TaggedValue::Null);
    b.set_name(&name);

    a.warmup(&mut ctx);
    b.warmup(&mut ctx);

    a.set(&mut ctx, TaggedValue::Int(42));
    assert_eq!(b.get(&ctx).as_int().unwrap(), 42);
    // And through the same binding as well.
    assert_eq!(a.get(&ctx).as_int().unwrap(), 42);

    b.set(&mut ctx, TaggedValue::Int(7));
    assert_eq!(a.get(&ctx).as_int().unwrap(), 7);
}

#[test]
fn literal_binding_reads_and_writes_locally() {
    let mut ctx = ExecContext::new();
    let mut p = ParamVar::new_literal(TaggedValue::Int(5));
    p.warmup(&mut ctx);
    assert_eq!(p.get(&ctx).as_int().unwrap(), 5);
    p.set(&mut ctx, TaggedValue::Int(6));
    assert_eq!(p.get(&ctx).as_int().unwrap(), 6);
    // No context slot was created for a literal binding.
    assert_eq!(ctx.slots.len(), 0);
}

#[test]
fn cleanup_is_idempotent_and_safe_without_warmup() {
    let mut ctx = ExecContext::new();
    let name = "n".to_string();
    let mut p = ParamVar::new_literal(TaggedValue::Null);
    p.set_name(&name);

    // Cleanup before any warmup is harmless.
    p.cleanup();
    assert!(p.slot.is_none());

    p.warmup(&mut ctx);
    assert!(p.slot.is_some());

    // Cleanup twice leaves no dangling resolved slot.
    p.cleanup();
    assert!(p.slot.is_none());
    assert!(!p.bound);
    p.cleanup();
    assert!(p.slot.is_none());
    assert!(!p.bound);

    // The bracket can be entered again afterwards.
    p.warmup(&mut ctx);
    assert!(p.slot.is_some());
    p.cleanup();
}

#[test]
fn warmup_creates_the_slot_when_absent() {
    let mut ctx = ExecContext::new();
    let name = "fresh".to_string();
    let mut p = ParamVar::new_literal(TaggedValue::Null);
    p.set_name(&name);
    assert_eq!(ctx.slots.len(), 0);
    p.warmup(&mut ctx);
    assert_eq!(ctx.slots.len(), 1);
    // Created per host convention with a Null value.
    assert!(matches!(p.get(&ctx), TaggedValue::Null));
}

#[test]
fn registry_registers_and_finds_blocks_by_name() {
    let mut registry = Registry::new();
    flowblocks::browse::registerBlocks(&mut registry);
    flowblocks::ecdsa::registerBlocks(&mut registry);
    flowblocks::hash::registerBlocks(&mut registry);
    flowblocks::forces::registerBlocks(&mut registry);
    assert_eq!(registry.entries.len(), 10);

    let found = registry.find(&"Browse".to_string());
    assert_eq!(found, Some(BlockKind::Browse));
    assert_eq!(
        registry.find(&"Physics.Impulse".to_string()),
        Some(BlockKind::Impulse)
    );
    assert_eq!(
        registry.find(&"Hash.Keccak-256".to_string()),
        Some(BlockKind::HashKeccak256)
    );
    assert_eq!(registry.find(&"NoSuchBlock".to_string()), None);

    // Type-identity hashes are pairwise distinct.
    for i in 0..registry.entries.len() {
        for j in 0..registry.entries.len() {
            if i != j {
                assert_ne!(
                    registry.entries[i].type_hash(),
                    registry.entries[j].type_hash()
                );
            }
        }
    }
}

#[test]
fn registry_creates_instances_of_the_right_kind() {
    let mut registry = Registry::new();
    flowblocks::hash::registerBlocks(&mut registry);
    let kind = registry.find(&"Hash.Sha2-256".to_string()).unwrap();
    let instance = kind.create();
    assert_eq!(instance.kind(), BlockKind::HashSha2_256);
    assert!(matches!(instance, BlockInstance::Hash(_)));
    assert_eq!(BlockKind::Browse.create().kind(), BlockKind::Browse);
}

#[test]
fn instances_run_the_uniform_lifecycle() {
    let mut ctx = ExecContext::new();

    // A hash instance goes through warmup, repeated activation, cleanup.
    let mut hash = BlockKind::HashSha2_256.create();
    hash.warmup(&mut ctx).unwrap();
    let first = match hash.activate(&mut ctx, &TaggedValue::Bytes(vec![1, 2])).unwrap() {
        Activation::Value(v) => v.as_bytes().unwrap().clone(),
        Activation::Blocked(_) => panic!("hashing must not block"),
    };
    let second = match hash.activate(&mut ctx, &TaggedValue::Bytes(vec![1, 2])).unwrap() {
        Activation::Value(v) => v.as_bytes().unwrap().clone(),
        Activation::Blocked(_) => panic!("hashing must not block"),
    };
    assert_eq!(first, second);
    hash.cleanup();

    // A browse instance yields the blocking call for the host.
    let mut browse = BlockKind::Browse.create();
    browse.warmup(&mut ctx).unwrap();
    let input = TaggedValue::Str("https://example.org".to_string());
    match browse.activate(&mut ctx, &input).unwrap() {
        Activation::Blocked(BlockedCall::OpenUrl(u)) => assert_eq!(u, "https://example.org"),
        Activation::Value(_) => panic!("browsing must block"),
    }
    browse.cleanup();
}

#[test]
fn browse_requests_opening_the_input_url() {
    let block = BrowseBlock::new();
    let input = TaggedValue::Str("https://example.org".to_string());
    let call = block.activate(&input).unwrap();
    let BlockedCall::OpenUrl(url) = call;
    assert_eq!(url, "https://example.org");

    // The input passes through unchanged once the host reports success.
    let out = block.resume(&input, true).unwrap();
    assert_eq!(out.as_str().unwrap().as_str(), "https://example.org");

    // A reported failure becomes an external failure.
    let err = block.resume(&input, false).unwrap_err();
    assert_eq!(err.kind, ErrorKind::ExternalFailure);
    assert_eq!(err.message, "Failed to browse.");
}

#[test]
fn browse_rejects_non_string_input() {
    let block = BrowseBlock::new();
    let err = block.activate(&TaggedValue::Int(3)).unwrap_err();
    assert_eq!(err.kind, ErrorKind::ShapeMismatch);
}

#[test]
fn simulation_lookup_fails_for_removed_handles_only() {
    let mut sim = Simulation::new();
    let h1 = sim.create_body(zero_body());
    let h2 = sim.create_body(zero_body());
    assert!(sim.contains(h1) && sim.contains(h2));

    assert!(sim.remove_body(h1));
    assert!(!sim.contains(h1));
    assert!(sim.contains(h2));
    // Removing again reports absence.
    assert!(!sim.remove_body(h1));

    // A stale handle fails impulse application and nothing changes...
    assert!(!sim.apply_impulse(h1, Vec3 { x: 1, y: 2, z: 3 }));
    // ...while a live one takes the impulse, and only it.
    assert!(sim.apply_impulse(h2, Vec3 { x: 1, y: 2, z: 3 }));
    assert_eq!(sim.body_state(h2).unwrap().velocity, Vec3 { x: 1, y: 2, z: 3 });
    assert!(sim.body_state(h1).is_none());

    // A slot reused after removal does not revive the stale handle.
    let h3 = sim.create_body(zero_body());
    assert!(sim.contains(h3));
    assert!(!sim.contains(h1));
    assert_ne!(h1, h3);
}

#[test]
fn kinds_declare_their_value_shapes_and_parameters() {
    assert_eq!(BlockKind::Browse.input_shapes(), vec![Shape::Str]);
    assert_eq!(BlockKind::Browse.output_shapes(), vec![Shape::Str]);
    assert_eq!(BlockKind::EcdsaSign.input_shapes(), vec![Shape::Bytes]);
    assert_eq!(BlockKind::EcdsaSign.output_shapes(), vec![Shape::Sequence]);
    assert_eq!(
        BlockKind::EcdsaPubKey.input_shapes(),
        vec![Shape::Bytes, Shape::Str]
    );
    assert_eq!(
        BlockKind::HashSha2_256.input_shapes(),
        vec![Shape::Bytes, Shape::Str, Shape::Sequence]
    );
    assert_eq!(BlockKind::HashSha2_256.output_shapes(), vec![Shape::Bytes]);
    assert_eq!(BlockKind::Impulse.input_shapes(), vec![Shape::Vector3]);

    assert!(BlockKind::Browse.parameters().is_empty());
    assert!(BlockKind::HashKeccak512.parameters().is_empty());
    assert_eq!(BlockKind::EcdsaSign.parameters()[0].name, "Key");
    assert_eq!(BlockKind::EcdsaPubKey.parameters()[0].name, "Compressed");
    assert_eq!(BlockKind::Impulse.parameters()[0].name, "RigidBody");
}

#[test]
fn impulse_on_velocity_wraps_at_the_integer_edge() {
    let mut sim = Simulation::new();
    let h = sim.create_body(RigidBodyState {
        position: Vec3 { x: 0, y: 0, z: 0 },
        velocity: Vec3 { x: i64::MAX, y: 0, z: 0 },
    });
    assert!(sim.apply_impulse(h, Vec3 { x: 1, y: 0, z: 0 }));
    assert_eq!(sim.body_state(h).unwrap().velocity.x, i64::MIN);
}

#[test]
fn body_group_collects_distinct_handles() {
    let mut sim = Simulation::new();
    let h1 = sim.create_body(zero_body());
    let h2 = sim.create_body(zero_body());
    let mut group = BodyGroup::new();
    group.add(h1);
    group.add(h2);
    assert_eq!(group.handles.len(), 2);
    assert_ne!(group.handles[0], group.handles[1]);
}
