//! The impulse block: applies the input vector as an impulse to every
//! body of a named rigid-body collection inside the shared simulation.
//!
//! Application is all-or-nothing: every handle of the collection is
//! validated against the arena first, and only if all are live is the
//! impulse applied, to exactly those bodies. A stale handle fails the
//! whole activation with `NotFound` and leaves every body untouched, so a
//! partially applied pass can never be observed.

use vstd::prelude::*;

use crate::binding::{ParamValue, ParamVar};
use crate::context::{ExecContext, RIGID_BODY_TAG, SIMULATION_TAG};
use crate::deps::ExposedInfo;
use crate::error::{BlockError, ErrorKind};
use crate::registry::{BlockKind, Registry};
use crate::simulation::{with_impulse, BodyHandle, Simulation};
use crate::value::{TaggedValue, ObjectRef, ValueModel, Vec3};

verus! {

/// The impulse vector a numeric-vector value denotes.
pub open spec fn impulse_of(m: ValueModel) -> Vec3 {
    Vec3 { x: m->Vector3_0, y: m->Vector3_1, z: m->Vector3_2 }
}

/// The impulse block: its simulation parameter is always bound to the
/// conventional "Physics.Simulation" variable; its rigid-body parameter
/// names the collection to act on.
pub struct ImpulseBlock {
    pub simulation: ParamVar,
    pub rb: ParamVar,
    pub reqs: Vec<ExposedInfo>,
}

impl ImpulseBlock {
    /// The simulation parameter's current value is a tagged reference to
    /// a live simulation.
    pub open spec fn sim_resolves(self, ctx: ExecContext) -> bool {
        self.simulation.read_spec(ctx) matches TaggedValue::Object(r) && ctx.is_sim(r)
    }

    /// That reference (meaningful only when `sim_resolves`).
    pub open spec fn sim_ref_of(self, ctx: ExecContext) -> ObjectRef {
        self.simulation.read_spec(ctx)->Object_0
    }

    /// The rigid-body parameter's current value is a tagged reference to
    /// a handle collection.
    pub open spec fn bodies_resolve(self, ctx: ExecContext) -> bool {
        self.rb.read_spec(ctx) matches TaggedValue::Object(r) && ctx.is_bodies(r)
    }

    /// That reference (meaningful only when `bodies_resolve`).
    pub open spec fn bodies_ref_of(self, ctx: ExecContext) -> ObjectRef {
        self.rb.read_spec(ctx)->Object_0
    }

    /// The handles of the referenced collection.
    pub open spec fn handles_of(self, ctx: ExecContext) -> Seq<BodyHandle> {
        ctx.bodies_at_spec(self.bodies_ref_of(ctx)).handles@
    }

    /// Every handle of the collection is live in the referenced
    /// simulation.
    pub open spec fn all_live(self, ctx: ExecContext) -> bool {
        forall|i: int|
            0 <= i < self.handles_of(ctx).len() ==> ctx.sim_at(self.sim_ref_of(ctx)).valid(
                #[trigger] self.handles_of(ctx)[i],
            )
    }

    /// The error kind a failed simulation resolution reports: a foreign
    /// tag is a tag mismatch, anything else is absence.
    pub open spec fn sim_err_kind(self, ctx: ExecContext) -> ErrorKind {
        if self.simulation.read_spec(ctx) matches TaggedValue::Object(o) && o.tag
            != SIMULATION_TAG {
            ErrorKind::TypeTagMismatch
        } else {
            ErrorKind::NotFound
        }
    }

    /// The error kind a failed collection resolution reports.
    pub open spec fn bodies_err_kind(self, ctx: ExecContext) -> ErrorKind {
        if self.rb.read_spec(ctx) matches TaggedValue::Object(o) && o.tag != RIGID_BODY_TAG {
            ErrorKind::TypeTagMismatch
        } else {
            ErrorKind::NotFound
        }
    }

    /// Both bindings are inside a warmup/cleanup bracket and resolved
    /// against `ctx`.
    pub open spec fn warmed(self, ctx: ExecContext) -> bool {
        &&& self.simulation.is_bound()
        &&& self.simulation.wf_in(ctx)
        &&& self.rb.is_bound()
        &&& self.rb.wf_in(ctx)
    }

    /// A fresh block: the simulation parameter refers to the conventional
    /// "Physics.Simulation" variable; the rigid-body parameter is not yet
    /// configured.
    pub fn new() -> (b: ImpulseBlock)
        ensures
            !b.simulation.is_bound(),
            b.simulation.is_named(),
            b.simulation.var_name() == "Physics.Simulation"@,
            !b.rb.is_bound(),
            !b.rb.is_named(),
            b.reqs@.len() == 0,
    {
        let mut simulation = ParamVar::new_literal(TaggedValue::Null);
        let name: String = "Physics.Simulation".to_owned();
        simulation.set_name(&name);
        ImpulseBlock {
            simulation,
            rb: ParamVar::new_literal(TaggedValue::Null),
            reqs: Vec::new(),
        }
    }

    /// Configure the rigid-body parameter: a name points it at the
    /// collection variable; no value clears nothing (the parameter is
    /// left as it is); any other literal is rejected.
    pub fn set_param(&mut self, index: usize, value: &ParamValue) -> (r: Result<(), BlockError>)
        requires
            index == 0,
            !old(self).rb.is_bound(),
        ensures
            final(self).simulation == old(self).simulation,
            final(self).reqs@ == old(self).reqs@,
            !final(self).rb.is_bound(),
            value matches ParamValue::Named(n) ==> (r is Ok && final(self).rb.is_named()
                && final(self).rb.var_name() == n@),
            *value matches ParamValue::Value(TaggedValue::Null) ==> (r is Ok && *final(self)
                == *old(self)),
            !(*value matches ParamValue::Named(_)) && !(*value matches ParamValue::Value(
                TaggedValue::Null,
            )) ==> (r matches Err(e) && e.kind == ErrorKind::InvalidParameter && *final(self)
                == *old(self)),
    {
        match value {
            ParamValue::Named(n) => {
                self.rb.set_name(n);
                Ok(())
            },
            ParamValue::Value(TaggedValue::Null) => Ok(()),
            _ => Err(
                BlockError::new(ErrorKind::InvalidParameter, "Expected a variable name or none"),
            ),
        }
    }

    /// Report the rigid-body parameter: the variable name when set, no
    /// value otherwise.
    pub fn get_param(&self, index: usize) -> (r: ParamValue)
        requires
            index == 0,
        ensures
            self.rb.is_named() ==> (r matches ParamValue::Named(n) && n@ == self.rb.var_name()),
            !self.rb.is_named() ==> r matches ParamValue::Value(TaggedValue::Null),
    {
        match &self.rb.name {
            Some(n) => ParamValue::Named(n.clone()),
            None => ParamValue::Value(TaggedValue::Null),
        }
    }

    /// Recompute the declared dependencies from the current parameters:
    /// always the shared simulation, plus the rigid-body variable when
    /// one is named. Computable without activating the block.
    pub fn required_variables(&mut self) -> (r: &Vec<ExposedInfo>)
        ensures
            final(self).simulation == old(self).simulation,
            final(self).rb == old(self).rb,
            *r == final(self).reqs,
            final(self).reqs@.len() == (if old(self).rb.is_named() {
                2int
            } else {
                1int
            }),
            final(self).reqs@[0].name@ == "Physics.Simulation"@,
            final(self).reqs@[0].tag == SIMULATION_TAG,
            final(self).reqs@[0].help@ == "The physics simulation subsystem."@,
            old(self).rb.is_named() ==> final(self).reqs@[1].name@ == old(self).rb.var_name()
                && final(self).reqs@[1].tag == RIGID_BODY_TAG && final(self).reqs@[1].help@
                == "The required rigid body."@,
    {
        self.reqs = Vec::new();
        self.reqs.push(
            ExposedInfo::new(
                "Physics.Simulation",
                "The physics simulation subsystem.",
                SIMULATION_TAG,
            ),
        );
        let extra = match &self.rb.name {
            Some(n) => Some(ExposedInfo::new(n.as_str(), "The required rigid body.", RIGID_BODY_TAG)),
            None => None,
        };
        match extra {
            Some(info) => self.reqs.push(info),
            None => (),
        }
        &self.reqs
    }

    /// Bind both parameters against the context.
    pub fn warmup(&mut self, ctx: &mut ExecContext) -> (r: Result<(), BlockError>)
        requires
            !old(self).simulation.is_bound(),
            !old(self).rb.is_bound(),
            old(ctx).wf(),
        ensures
            r is Ok,
            final(ctx).wf(),
            final(self).warmed(*final(ctx)),
            final(self).simulation.name == old(self).simulation.name,
            final(self).simulation.value == old(self).simulation.value,
            final(self).rb.name == old(self).rb.name,
            final(self).rb.value == old(self).rb.value,
            final(self).reqs@ == old(self).reqs@,
            final(ctx).objects@ == old(ctx).objects@,
            final(ctx).slots@.len() >= old(ctx).slots@.len(),
            forall|j: int|
                0 <= j < old(ctx).slots@.len() ==> final(ctx).slots@[j] == old(ctx).slots@[j],
    {
        self.rb.warmup(ctx);
        self.simulation.warmup(ctx);
        Ok(())
    }

    /// Release both bindings. Idempotent.
    pub fn cleanup(&mut self)
        ensures
            !final(self).simulation.is_bound(),
            !final(self).rb.is_bound(),
            final(self).simulation.slot is None,
            final(self).rb.slot is None,
            final(self).simulation.name == old(self).simulation.name,
            final(self).simulation.value == old(self).simulation.value,
            final(self).rb.name == old(self).rb.name,
            final(self).rb.value == old(self).rb.value,
            final(self).reqs@ == old(self).reqs@,
    {
        self.rb.cleanup();
        self.simulation.cleanup();
    }

    /// Apply the input vector as an impulse to every body of the bound
    /// collection. A collection with no handles asks for no work: the
    /// input passes through untouched, whatever its shape, and nothing is
    /// read from it. Otherwise the activation succeeds exactly when the
    /// simulation and the collection resolve, the input is a numeric
    /// vector, and every handle is live; then each listed body takes the
    /// impulse, no other body changes, and the input passes through
    /// unchanged. On any failure the context — the simulation included —
    /// is exactly as it was.
    pub fn activate(&self, ctx: &mut ExecContext, input: &TaggedValue) -> (r: Result<
        TaggedValue,
        BlockError,
    >)
        requires
            old(ctx).wf(),
            self.warmed(*old(ctx)),
        ensures
            final(ctx).wf(),
            final(ctx).slots@ == old(ctx).slots@,
            r is Ok <==> self.sim_resolves(*old(ctx)) && self.bodies_resolve(*old(ctx)) && (
            self.handles_of(*old(ctx)).len() == 0 || (input@ is Vector3 && self.all_live(
                *old(ctx),
            ))),
            r is Ok ==> r->Ok_0@ == input@,
            r is Err ==> *final(ctx) == *old(ctx),
            self.sim_resolves(*old(ctx)) && self.bodies_resolve(*old(ctx)) && self.handles_of(
                *old(ctx),
            ).len() == 0 ==> *final(ctx) == *old(ctx),
            !self.sim_resolves(*old(ctx)) ==> (r matches Err(e) && e.kind == self.sim_err_kind(
                *old(ctx),
            ) && e.message@ == "Physics simulation not found"@),
            self.sim_resolves(*old(ctx)) && !self.bodies_resolve(*old(ctx)) ==> (r matches Err(e)
                && e.kind == self.bodies_err_kind(*old(ctx)) && e.message@
                == "RigidBody not found"@),
            self.sim_resolves(*old(ctx)) && self.bodies_resolve(*old(ctx)) && self.handles_of(
                *old(ctx),
            ).len() > 0 && !(input@ is Vector3) ==> (r matches Err(e) && e.kind
                == ErrorKind::ShapeMismatch),
            self.sim_resolves(*old(ctx)) && self.bodies_resolve(*old(ctx)) && self.handles_of(
                *old(ctx),
            ).len() > 0 && input@ is Vector3 && !self.all_live(*old(ctx)) ==> (r matches Err(e)
                && e.kind == ErrorKind::NotFound && e.message@
                == "RigidBody not found in the simulation"@),
            r is Ok ==> final(ctx).objects@.len() == old(ctx).objects@.len(),
            r is Ok ==> forall|k: int|
                0 <= k < old(ctx).objects@.len() && k != self.sim_ref_of(*old(ctx)).slot
                    ==> final(ctx).objects@[k] == old(ctx).objects@[k],
            r is Ok ==> final(ctx).is_sim(self.sim_ref_of(*old(ctx))),
            r is Ok ==> forall|i: int|
                0 <= i < self.handles_of(*old(ctx)).len() ==> final(ctx).sim_at(
                    self.sim_ref_of(*old(ctx)),
                ).body(#[trigger] self.handles_of(*old(ctx))[i]) == with_impulse(
                    old(ctx).sim_at(self.sim_ref_of(*old(ctx))).body(
                        self.handles_of(*old(ctx))[i],
                    ),
                    impulse_of(input@),
                ),
            r is Ok ==> forall|h: BodyHandle|
                #![all_triggers]
                final(ctx).sim_at(self.sim_ref_of(*old(ctx))).valid(h) <==> old(ctx).sim_at(
                    self.sim_ref_of(*old(ctx)),
                ).valid(h),
            r is Ok ==> forall|h: BodyHandle|
                #![all_triggers]
                old(ctx).sim_at(self.sim_ref_of(*old(ctx))).valid(h) && !self.handles_of(
                    *old(ctx),
                ).contains(h) ==> final(ctx).sim_at(self.sim_ref_of(*old(ctx))).body(h) == old(
                    ctx,
                ).sim_at(self.sim_ref_of(*old(ctx))).body(h),
    {
        let simref = match self.simulation.get(ctx).as_object() {
            Ok(o) => o,
            Err(_) => {
                return Err(BlockError::new(ErrorKind::NotFound, "Physics simulation not found"));
            },
        };
        match ctx.resolve_sim(simref) {
            Ok(_) => (),
            Err(e) => {
                return Err(BlockError::new(e.kind, "Physics simulation not found"));
            },
        }
        let rbref = match self.rb.get(ctx).as_object() {
            Ok(o) => o,
            Err(_) => {
                return Err(BlockError::new(ErrorKind::NotFound, "RigidBody not found"));
            },
        };
        match ctx.resolve_bodies(rbref) {
            Ok(_) => (),
            Err(e) => {
                return Err(BlockError::new(e.kind, "RigidBody not found"));
            },
        }
        // Copy the handle list out of the collection.
        let group = ctx.bodies_ref(rbref);
        let n = group.handles.len();
        let mut handles: Vec<BodyHandle> = Vec::new();
        let mut i: usize = 0;
        while i < n
            invariant
                i <= n,
                n == group.handles@.len(),
                *group == old(ctx).bodies_at_spec(self.bodies_ref_of(*old(ctx))),
                handles@ == group.handles@.take(i as int),
            decreases n - i,
        {
            handles.push(group.handles[i]);
            proof {
                assert(group.handles@.take(i + 1) =~= group.handles@.take(i as int).push(
                    group.handles@[i as int],
                ));
            }
            i += 1;
        }
        proof {
            assert(group.handles@.take(n as int) =~= group.handles@);
            assert(handles@ == self.handles_of(*old(ctx)));
        }

        // An empty collection asks for no work: the input passes through
        // without ever being read.
        if n == 0 {
            return Ok(input.deep_clone());
        }
        let imp = match input.as_vector3() {
            Ok(v) => v,
            Err(e) => {
                return Err(e);
            },
        };

        // Phase one: validate every handle before touching anything.
        let sim = ctx.sim_ref(simref);
        let mut i: usize = 0;
        while i < n
            invariant
                i <= n,
                n == handles@.len(),
                *ctx == *old(ctx),
                old(ctx).wf(),
                self.warmed(*old(ctx)),
                self.sim_resolves(*old(ctx)),
                self.bodies_resolve(*old(ctx)),
                simref == self.sim_ref_of(*old(ctx)),
                handles@ == self.handles_of(*old(ctx)),
                *sim == old(ctx).sim_at(simref),
                input@ is Vector3,
                forall|j: int| 0 <= j < i ==> sim.valid(#[trigger] handles@[j]),
            decreases n - i,
        {
            if !sim.contains(handles[i]) {
                proof {
                    assert(!old(ctx).sim_at(self.sim_ref_of(*old(ctx))).valid(
                        self.handles_of(*old(ctx))[i as int],
                    ));
                    assert(!self.all_live(*old(ctx)));
                }
                return Err(
                    BlockError::new(ErrorKind::NotFound, "RigidBody not found in the simulation"),
                );
            }
            i += 1;
        }
        proof {
            assert(self.all_live(*old(ctx)));
        }

        proof {
            // The stored collection is duplicate-free, by context
            // well-formedness.
            assert(old(ctx).objects@[rbref.slot as int] matches
                crate::context::NativeObject::Bodies(g) ==> g.wf());
        }

        // Phase two: apply the impulse to each body.
        let ghost s0: Simulation = ctx.sim_at(simref);
        let sim = ctx.sim_mut(simref);
        let mut i: usize = 0;
        while i < n
            invariant
                i <= n,
                n == handles@.len(),
                s0 == old(ctx).sim_at(self.sim_ref_of(*old(ctx))),
                handles@ == self.handles_of(*old(ctx)),
                forall|j1: int, j2: int|
                    0 <= j1 < j2 < n ==> handles@[j1] != handles@[j2],
                forall|k: int| 0 <= k < n ==> s0.valid(#[trigger] handles@[k]),
                forall|h: BodyHandle| #![all_triggers] sim.valid(h) <==> s0.valid(h),
                forall|j: int|
                    0 <= j < i ==> sim.body(#[trigger] handles@[j]) == with_impulse(
                        s0.body(handles@[j]),
                        imp,
                    ),
                forall|h: BodyHandle|
                    #![all_triggers]
                    s0.valid(h) && !handles@.take(i as int).contains(h) ==> sim.body(h) == s0.body(
                        h,
                    ),
            decreases n - i,
        {
            let applied = sim.apply_impulse(handles[i], imp);
            proof {
                assert(applied);
                assert(handles@.take(i + 1) =~= handles@.take(i as int).push(handles@[i as int]));
                assert forall|h: BodyHandle|
                    s0.valid(h) && !handles@.take(i + 1).contains(h) implies sim.body(h) == s0.body(
                    h,
                ) by {
                    assert(!handles@.take(i as int).contains(h));
                    assert(handles@.take(i + 1)[i as int] == handles@[i as int]);
                    assert(h != handles@[i as int]);
                }
            }
            i += 1;
        }
        proof {
            assert(handles@.take(n as int) =~= handles@);
        }

        proof {
            assert(final(ctx).objects@ == old(ctx).objects@.update(
                simref.slot as int,
                crate::context::NativeObject::Sim(*final(sim)),
            ));
        }
        Ok(TaggedValue::Vector3(imp))
    }
}

/// Register the impulse block.
#[allow(non_snake_case)]
pub fn registerBlocks(registry: &mut Registry)
    ensures
        final(registry).entries@ == old(registry).entries@.push(BlockKind::Impulse),
{
    registry.register(BlockKind::Impulse);
}

} // verus!
