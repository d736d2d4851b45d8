//! The shared physics simulation: a generational arena of rigid-body
//! entries addressed by stable handles.
//!
//! A handle is an index plus the generation the slot had when the body was
//! created. Removing a body bumps the slot's generation, so every handle to
//! the removed body fails validity checks from then on: stale handles fail
//! lookups cleanly instead of aliasing a reused slot. Handle validity is
//! checked at every point of use, never assumed.

use vstd::prelude::*;

use crate::value::Vec3;

verus! {

/// A generation-checked handle into a simulation's body arena.
#[derive(Clone, Copy, PartialEq, Eq, Structural, Debug)]
pub struct BodyHandle {
    pub index: usize,
    pub generation: u64,
}

/// The state of one rigid body as the blocks observe it.
#[derive(Clone, Copy, PartialEq, Eq, Structural, Debug)]
pub struct RigidBodyState {
    pub position: Vec3,
    pub velocity: Vec3,
}

/// The state a body reaches when an impulse is applied to it: the impulse
/// vector adds into the velocity componentwise (two's-complement wrap on
/// overflow); the position is untouched.
pub open spec fn with_impulse(b: RigidBodyState, imp: Vec3) -> RigidBodyState {
    RigidBodyState {
        position: b.position,
        velocity: Vec3 {
            x: b.velocity.x.wrapping_add(imp.x),
            y: b.velocity.y.wrapping_add(imp.y),
            z: b.velocity.z.wrapping_add(imp.z),
        },
    }
}

/// A block-local collection of handles into one simulation's arena (the
/// "RigidBody" a body-creation block publishes and force blocks consume).
/// It does not keep the bodies alive: every handle must be validated
/// against the current arena at the time of use.
pub struct BodyGroup {
    pub handles: Vec<BodyHandle>,
}

impl BodyGroup {
    /// Well-formedness: no handle is listed twice.
    pub open spec fn wf(self) -> bool {
        forall|i: int, j: int|
            0 <= i < j < self.handles@.len() ==> self.handles@[i] != self.handles@[j]
    }

    /// An empty collection.
    pub fn new() -> (g: BodyGroup)
        ensures
            g.wf(),
            g.handles@.len() == 0,
    {
        BodyGroup { handles: Vec::new() }
    }

    /// Append a handle not already present.
    pub fn add(&mut self, h: BodyHandle)
        requires
            old(self).wf(),
            !old(self).handles@.contains(h),
        ensures
            final(self).wf(),
            final(self).handles@ == old(self).handles@.push(h),
    {
        self.handles.push(h);
    }
}

struct ArenaSlot {
    generation: u64,
    body: Option<RigidBodyState>,
}

/// The shared owner of the body arena. One graph-level provider creates it;
/// every block that mutates physics state reaches it by name through a
/// variable binding and validates each handle against it at point of use.
pub struct Simulation {
    slots: Vec<ArenaSlot>,
}

impl Simulation {
    /// `h` currently addresses a live body: its slot exists, the slot is on
    /// the same generation as when `h` was issued, and the body has not been
    /// removed.
    pub closed spec fn valid(self, h: BodyHandle) -> bool {
        &&& h.index < self.slots.len()
        &&& self.slots[h.index as int].generation == h.generation
        &&& self.slots[h.index as int].body is Some
    }

    /// The state of the live body addressed by `h` (meaningful only when
    /// `valid(h)`).
    pub closed spec fn body(self, h: BodyHandle) -> RigidBodyState {
        self.slots[h.index as int].body->Some_0
    }

    /// An empty simulation: no handle is valid.
    pub fn new() -> (s: Simulation)
        ensures
            forall|h: BodyHandle| !s.valid(h),
    {
        Simulation { slots: Vec::new() }
    }

    /// Insert a body into the arena and return a fresh handle for it: the
    /// handle was not valid before, is valid now, and every other handle
    /// keeps its validity and its body.
    pub fn create_body(&mut self, body: RigidBodyState) -> (h: BodyHandle)
        ensures
            !old(self).valid(h),
            final(self).valid(h),
            final(self).body(h) == body,
            forall|h2: BodyHandle| h2 != h ==> (final(self).valid(h2) <==> old(self).valid(h2)),
            forall|h2: BodyHandle| h2 != h && old(self).valid(h2) ==> final(self).body(h2)
                == old(self).body(h2),
    {
        let n = self.slots.len();
        let mut i: usize = 0;
        while i < n
            invariant
                i <= n,
                n == self.slots@.len(),
                *self == *old(self),
                forall|j: int| 0 <= j < i ==> !(self.slots@[j].body is None
                    && self.slots@[j].generation < u64::MAX),
            decreases n - i,
        {
            if self.slots[i].body.is_none() && self.slots[i].generation < u64::MAX {
                let generation = self.slots[i].generation + 1;
                let slot = &mut self.slots[i];
                *slot = ArenaSlot { generation, body: Some(body) };
                return BodyHandle { index: i, generation };
            }
            i += 1;
        }
        let generation: u64 = 0;
        self.slots.push(ArenaSlot { generation, body: Some(body) });
        BodyHandle { index: n, generation }
    }

    /// Remove the body addressed by `h`, if it is live. The slot's
    /// generation moves on, so `h` (and every other handle to that body)
    /// stops being valid; all other handles keep their validity and body.
    pub fn remove_body(&mut self, h: BodyHandle) -> (removed: bool)
        ensures
            removed == old(self).valid(h),
            !final(self).valid(h),
            forall|h2: BodyHandle| h2 != h ==> (final(self).valid(h2) <==> old(self).valid(h2)),
            forall|h2: BodyHandle| h2 != h && old(self).valid(h2) ==> final(self).body(h2)
                == old(self).body(h2),
    {
        if self.contains(h) {
            let generation = if h.generation < u64::MAX {
                h.generation + 1
            } else {
                h.generation
            };
            let slot = &mut self.slots[h.index];
            *slot = ArenaSlot { generation, body: None };
            true
        } else {
            false
        }
    }

    /// Validity check for a handle: the central discipline of the arena.
    pub fn contains(&self, h: BodyHandle) -> (b: bool)
        ensures
            b == self.valid(h),
    {
        h.index < self.slots.len() && self.slots[h.index].generation == h.generation
            && self.slots[h.index].body.is_some()
    }

    /// Validated read-only lookup: the body's state if `h` is live, `None`
    /// otherwise.
    pub fn body_state(&self, h: BodyHandle) -> (r: Option<RigidBodyState>)
        ensures
            r is Some <==> self.valid(h),
            r is Some ==> r->Some_0 == self.body(h),
    {
        if self.contains(h) {
            match &self.slots[h.index].body {
                Some(b) => Some(*b),
                None => None,
            }
        } else {
            None
        }
    }

    /// Apply an impulse to the body addressed by `h`. If `h` is stale the
    /// arena is left exactly as it was and the call reports failure; if it
    /// is live, that body's velocity takes the impulse and no other body's
    /// state changes.
    pub fn apply_impulse(&mut self, h: BodyHandle, imp: Vec3) -> (ok: bool)
        ensures
            ok == old(self).valid(h),
            !ok ==> *final(self) == *old(self),
            forall|h2: BodyHandle| final(self).valid(h2) <==> old(self).valid(h2),
            ok ==> final(self).body(h) == with_impulse(old(self).body(h), imp),
            forall|h2: BodyHandle| h2 != h && old(self).valid(h2) ==> final(self).body(h2)
                == old(self).body(h2),
    {
        if self.contains(h) {
            let b = self.slots[h.index].body.unwrap();
            let updated = RigidBodyState {
                position: b.position,
                velocity: Vec3 {
                    x: b.velocity.x.wrapping_add(imp.x),
                    y: b.velocity.y.wrapping_add(imp.y),
                    z: b.velocity.z.wrapping_add(imp.z),
                },
            };
            let slot = &mut self.slots[h.index];
            *slot = ArenaSlot { generation: h.generation, body: Some(updated) };
            true
        } else {
            false
        }
    }
}

} // verus!
