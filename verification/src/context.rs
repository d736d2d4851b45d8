//! The execution context: the named-variable table that bindings resolve
//! into, and the store of native objects that tagged `ObjectRef` values
//! point at.
//!
//! An `ObjectRef` is a non-owning reference: consumers must re-resolve it
//! and re-check its type tag at every activation. Resolution succeeds
//! exactly when the reference carries the expected tag and its slot holds
//! an object of that semantic type.

use vstd::prelude::*;

use crate::error::{BlockError, ErrorKind};
use crate::simulation::{BodyGroup, Simulation};
use crate::value::{ObjectRef, TaggedValue};

verus! {

/// The type tag stamped on a shared physics simulation object
/// (CRC-32 of the type identity string "Physics.Simulation").
pub const SIMULATION_TAG: u32 = 0x027DEA46;

/// The type tag stamped on a rigid-body handle collection
/// (CRC-32 of the type identity string "Physics.RigidBody").
pub const RIGID_BODY_TAG: u32 = 0x0BF279FA;

/// One named variable slot.
pub struct VarSlot {
    pub name: String,
    pub value: TaggedValue,
}

/// Native state published by a provider block and referenced, never owned,
/// by tagged values.
pub enum NativeObject {
    Sim(Simulation),
    Bodies(BodyGroup),
}

/// The per-execution context the host hands to warmup and activation.
pub struct ExecContext {
    pub slots: Vec<VarSlot>,
    pub objects: Vec<NativeObject>,
}

impl ExecContext {
    /// Well-formedness: variable names are unique (so a name resolves to
    /// one slot) and every stored handle collection is duplicate-free.
    pub open spec fn wf(self) -> bool {
        &&& forall|i: int, j: int|
            0 <= i < j < self.slots@.len() ==> self.slots@[i].name@ != self.slots@[j].name@
        &&& forall|k: int|
            0 <= k < self.objects@.len() ==> ((#[trigger] self.objects@[k]) matches
            NativeObject::Bodies(g) ==> g.wf())
    }

    /// There is a variable slot named `name`.
    pub open spec fn has_var(self, name: Seq<char>) -> bool {
        exists|i: int| 0 <= i < self.slots@.len() && self.slots@[i].name@ == name
    }

    /// `r` can be reinterpreted as a reference to a live simulation: it
    /// carries the simulation type tag and its slot holds one.
    pub open spec fn is_sim(self, r: ObjectRef) -> bool {
        &&& r.tag == SIMULATION_TAG
        &&& r.slot < self.objects@.len()
        &&& self.objects@[r.slot as int] is Sim
    }

    /// The simulation behind `r` (meaningful only when `is_sim(r)`).
    pub open spec fn sim_at(self, r: ObjectRef) -> Simulation {
        self.objects@[r.slot as int]->Sim_0
    }

    /// `r` can be reinterpreted as a reference to a handle collection.
    pub open spec fn is_bodies(self, r: ObjectRef) -> bool {
        &&& r.tag == RIGID_BODY_TAG
        &&& r.slot < self.objects@.len()
        &&& self.objects@[r.slot as int] is Bodies
    }

    /// The handle collection behind `r` (meaningful only when `is_bodies(r)`).
    pub open spec fn bodies_at_spec(self, r: ObjectRef) -> BodyGroup {
        self.objects@[r.slot as int]->Bodies_0
    }

    /// An empty context.
    pub fn new() -> (ctx: ExecContext)
        ensures
            ctx.wf(),
            ctx.slots@.len() == 0,
            ctx.objects@.len() == 0,
    {
        ExecContext { slots: Vec::new(), objects: Vec::new() }
    }

    /// Find the slot named `name`, creating it (initialized to `Null`, per
    /// host convention) if absent. Existing slots keep their names and
    /// values; the object store is untouched.
    pub fn resolve_slot(&mut self, name: &String) -> (i: usize)
        requires
            old(self).wf(),
        ensures
            final(self).wf(),
            i < final(self).slots@.len(),
            final(self).slots@[i as int].name@ == name@,
            final(self).slots@.len() >= old(self).slots@.len(),
            forall|j: int|
                0 <= j < old(self).slots@.len() ==> final(self).slots@[j] == old(self).slots@[j],
            old(self).has_var(name@) ==> *final(self) == *old(self),
            !old(self).has_var(name@) ==> final(self).slots@.len() == old(self).slots@.len() + 1
                && i == old(self).slots@.len() && final(self).slots@[i as int].value
                == TaggedValue::Null,
            final(self).objects@ == old(self).objects@,
    {
        let n = self.slots.len();
        let mut j: usize = 0;
        while j < n
            invariant
                j <= n,
                n == self.slots@.len(),
                *self == *old(self),
                old(self).wf(),
                forall|k: int| 0 <= k < j ==> self.slots@[k].name@ != name@,
            decreases n - j,
        {
            if self.slots[j].name == *name {
                return j;
            }
            j += 1;
        }
        assert(!self.has_var(name@));
        self.slots.push(VarSlot { name: name.clone(), value: TaggedValue::Null });
        n
    }

    /// Read the value in slot `i`.
    pub fn read_slot(&self, i: usize) -> (v: &TaggedValue)
        requires
            i < self.slots@.len(),
        ensures
            *v == self.slots@[i as int].value,
    {
        &self.slots[i].value
    }

    /// Write `value` through slot `i`; every other slot, every name and the
    /// object store are untouched.
    pub fn write_slot(&mut self, i: usize, value: TaggedValue)
        requires
            old(self).wf(),
            i < old(self).slots@.len(),
        ensures
            final(self).wf(),
            final(self).slots@.len() == old(self).slots@.len(),
            final(self).slots@[i as int].name@ == old(self).slots@[i as int].name@,
            final(self).slots@[i as int].value == value,
            forall|j: int|
                0 <= j < old(self).slots@.len() && j != i ==> final(self).slots@[j] == old(
                    self,
                ).slots@[j],
            final(self).objects@ == old(self).objects@,
    {
        let name = self.slots[i].name.clone();
        let slot = &mut self.slots[i];
        *slot = VarSlot { name, value };
    }

    /// Publish a simulation in the object store and return the tagged
    /// reference for it.
    pub fn add_simulation(&mut self, sim: Simulation) -> (r: ObjectRef)
        requires
            old(self).wf(),
        ensures
            final(self).wf(),
            r.tag == SIMULATION_TAG,
            r.slot == old(self).objects@.len(),
            final(self).objects@ == old(self).objects@.push(NativeObject::Sim(sim)),
            final(self).slots@ == old(self).slots@,
            final(self).is_sim(r),
            final(self).sim_at(r) == sim,
    {
        let slot = self.objects.len();
        self.objects.push(NativeObject::Sim(sim));
        ObjectRef { slot, tag: SIMULATION_TAG }
    }

    /// Publish a duplicate-free handle collection in the object store and
    /// return the tagged reference for it.
    pub fn add_body_group(&mut self, group: BodyGroup) -> (r: ObjectRef)
        requires
            old(self).wf(),
            group.wf(),
        ensures
            final(self).wf(),
            r.tag == RIGID_BODY_TAG,
            r.slot == old(self).objects@.len(),
            final(self).objects@ == old(self).objects@.push(NativeObject::Bodies(group)),
            final(self).slots@ == old(self).slots@,
            final(self).is_bodies(r),
            final(self).bodies_at_spec(r) == group,
    {
        let slot = self.objects.len();
        self.objects.push(NativeObject::Bodies(group));
        ObjectRef { slot, tag: RIGID_BODY_TAG }
    }

    /// The tag-checked reinterpretation step for a simulation reference:
    /// succeeds exactly when `r` carries the simulation tag and addresses a
    /// simulation. A foreign tag is rejected as `TypeTagMismatch`, never
    /// coerced; a tag that matches but addresses nothing is `NotFound`.
    pub fn resolve_sim(&self, r: ObjectRef) -> (res: Result<(), BlockError>)
        ensures
            res is Ok <==> self.is_sim(r),
            res is Err ==> res->Err_0.kind == (if r.tag != SIMULATION_TAG {
                ErrorKind::TypeTagMismatch
            } else {
                ErrorKind::NotFound
            }),
    {
        if r.tag != SIMULATION_TAG {
            Err(BlockError::new(ErrorKind::TypeTagMismatch, "Expected a physics simulation tag"))
        } else if r.slot < self.objects.len() {
            match &self.objects[r.slot] {
                NativeObject::Sim(_) => Ok(()),
                _ => Err(BlockError::new(ErrorKind::NotFound, "No physics simulation at slot")),
            }
        } else {
            Err(BlockError::new(ErrorKind::NotFound, "No physics simulation at slot"))
        }
    }

    /// The tag-checked reinterpretation step for a handle collection
    /// reference.
    pub fn resolve_bodies(&self, r: ObjectRef) -> (res: Result<(), BlockError>)
        ensures
            res is Ok <==> self.is_bodies(r),
            res is Err ==> res->Err_0.kind == (if r.tag != RIGID_BODY_TAG {
                ErrorKind::TypeTagMismatch
            } else {
                ErrorKind::NotFound
            }),
    {
        if r.tag != RIGID_BODY_TAG {
            Err(BlockError::new(ErrorKind::TypeTagMismatch, "Expected a rigid body tag"))
        } else if r.slot < self.objects.len() {
            match &self.objects[r.slot] {
                NativeObject::Bodies(_) => Ok(()),
                _ => Err(BlockError::new(ErrorKind::NotFound, "No rigid body collection at slot")),
            }
        } else {
            Err(BlockError::new(ErrorKind::NotFound, "No rigid body collection at slot"))
        }
    }

    /// Borrow the handle collection behind a checked reference.
    pub fn bodies_ref(&self, r: ObjectRef) -> (g: &BodyGroup)
        requires
            self.is_bodies(r),
        ensures
            *g == self.bodies_at_spec(r),
    {
        match &self.objects[r.slot] {
            NativeObject::Bodies(g) => g,
            _ => vstd::pervasive::unreached(),
        }
    }

    /// Borrow the simulation behind a checked reference, read-only.
    pub fn sim_ref(&self, r: ObjectRef) -> (s: &Simulation)
        requires
            self.is_sim(r),
        ensures
            *s == self.sim_at(r),
    {
        match &self.objects[r.slot] {
            NativeObject::Sim(s) => s,
            _ => vstd::pervasive::unreached(),
        }
    }

    /// Mutably borrow the simulation behind a checked reference; the rest
    /// of the context is untouched.
    pub fn sim_mut(&mut self, r: ObjectRef) -> (s: &mut Simulation)
        requires
            old(self).wf(),
            old(self).is_sim(r),
        ensures
            *s == old(self).sim_at(r),
            final(self).wf(),
            final(self).slots@ == old(self).slots@,
            final(self).objects@ == old(self).objects@.update(
                r.slot as int,
                NativeObject::Sim(*final(s)),
            ),
    {
        match &mut self.objects[r.slot] {
            NativeObject::Sim(s) => s,
            _ => vstd::pervasive::unreached(),
        }
    }
}

} // verus!
