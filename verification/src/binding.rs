//! Variable bindings: a parameter slot that is either a literal value or a
//! reference to a named shared variable.
//!
//! A named binding is resolved to a live slot of the execution context's
//! variable table during `warmup` and released by `cleanup`; `get` and
//! `set` then read and write through the slot, observing whatever the most
//! recent writer placed there. `get`/`set` outside a warmup/cleanup bracket
//! is a contract violation and is excluded by `requires`, not reported.

use vstd::prelude::*;

use crate::context::ExecContext;
use crate::value::TaggedValue;

verus! {

/// A parameter value handed to `set_param`: either a literal tagged value
/// or the name of a shared variable the parameter should bind to.
pub enum ParamValue {
    Value(TaggedValue),
    Named(String),
}

/// A parameter slot of a block: `Literal(value)` or `Reference(name)`,
/// with the slot index cached while the binding is bound.
pub struct ParamVar {
    pub name: Option<String>,
    pub value: TaggedValue,
    pub slot: Option<usize>,
    pub bound: bool,
}

impl ParamVar {
    /// This binding refers to a named shared variable.
    pub open spec fn is_named(self) -> bool {
        self.name is Some
    }

    /// The referenced variable's name (meaningful only when named).
    pub open spec fn var_name(self) -> Seq<char> {
        self.name->Some_0@
    }

    /// The binding is inside a warmup/cleanup bracket.
    pub open spec fn is_bound(self) -> bool {
        self.bound
    }

    /// The cached slot index (meaningful only when bound and named).
    pub open spec fn slot_index(self) -> int {
        self.slot->Some_0 as int
    }

    /// Well-formedness against a context: while bound, a named binding's
    /// cached slot is a live slot of `ctx` carrying the binding's name.
    pub open spec fn wf_in(self, ctx: ExecContext) -> bool {
        self.bound && self.name is Some ==> self.slot is Some && 0 <= self.slot_index()
            < ctx.slots@.len() && ctx.slots@[self.slot_index()].name@ == self.var_name()
    }

    /// The value a bound binding reads: the referenced slot's value for a
    /// named binding, the locally held value for a literal one.
    pub open spec fn read_spec(self, ctx: ExecContext) -> TaggedValue {
        if self.name is Some {
            ctx.slots@[self.slot_index()].value
        } else {
            self.value
        }
    }

    /// A fresh literal binding holding `value`, not yet warmed up.
    pub fn new_literal(value: TaggedValue) -> (p: ParamVar)
        ensures
            !p.is_bound(),
            !p.is_named(),
            p.slot is None,
            p.value == value,
    {
        ParamVar { name: None, value, slot: None, bound: false }
    }

    /// Turn the slot into a reference to the shared variable `name`.
    /// Allowed only outside a warmup/cleanup bracket.
    pub fn set_name(&mut self, name: &String)
        requires
            !old(self).is_bound(),
        ensures
            !final(self).is_bound(),
            final(self).is_named(),
            final(self).var_name() == name@,
            final(self).slot is None,
            final(self).value == old(self).value,
    {
        self.name = Some(name.clone());
        self.slot = None;
    }

    /// Turn the slot back into a literal holding `value`.
    /// Allowed only outside a warmup/cleanup bracket.
    pub fn set_literal(&mut self, value: TaggedValue)
        requires
            !old(self).is_bound(),
        ensures
            !final(self).is_bound(),
            !final(self).is_named(),
            final(self).slot is None,
            final(self).value == value,
    {
        self.name = None;
        self.slot = None;
        self.value = value;
    }

    /// Resolve the binding against `ctx` and enter the bound state. A named
    /// binding acquires the slot for its name, creating the slot (as `Null`)
    /// if absent; a literal binding takes no context dependency and leaves
    /// `ctx` untouched.
    pub fn warmup(&mut self, ctx: &mut ExecContext)
        requires
            !old(self).is_bound(),
            old(ctx).wf(),
        ensures
            final(ctx).wf(),
            final(self).is_bound(),
            final(self).wf_in(*final(ctx)),
            final(self).name == old(self).name,
            final(self).value == old(self).value,
            !old(self).is_named() ==> *final(ctx) == *old(ctx) && final(self).slot is None,
            final(ctx).objects@ == old(ctx).objects@,
            final(ctx).slots@.len() >= old(ctx).slots@.len(),
            forall|j: int|
                0 <= j < old(ctx).slots@.len() ==> final(ctx).slots@[j] == old(ctx).slots@[j],
            old(self).is_named() && old(ctx).has_var(old(self).var_name())
                ==> *final(ctx) == *old(ctx),
            old(self).is_named() && !old(ctx).has_var(old(self).var_name())
                ==> final(ctx).slots@.len() == old(ctx).slots@.len() + 1
                && final(ctx).slots@[old(ctx).slots@.len() as int].value == TaggedValue::Null,
    {
        match &self.name {
            Some(n) => {
                let i = ctx.resolve_slot(n);
                self.slot = Some(i);
            },
            None => {
                self.slot = None;
            },
        }
        self.bound = true;
    }

    /// Read the bound binding: through the resolved slot when named, from
    /// the local value when literal.
    pub fn get<'a>(&'a self, ctx: &'a ExecContext) -> (v: &'a TaggedValue)
        requires
            self.is_bound(),
            self.wf_in(*ctx),
        ensures
            *v == self.read_spec(*ctx),
    {
        match &self.name {
            Some(_) => {
                match &self.slot {
                    Some(i) => ctx.read_slot(*i),
                    None => vstd::pervasive::unreached(),
                }
            },
            None => &self.value,
        }
    }

    /// Write `value` through the bound binding. A named binding writes the
    /// shared slot (visible to every binding resolved to the same name); a
    /// literal binding overwrites its local value. Either way, reading the
    /// binding afterwards yields `value`, and nothing else in the context
    /// changes.
    pub fn set(&mut self, ctx: &mut ExecContext, value: TaggedValue)
        requires
            old(self).is_bound(),
            old(self).wf_in(*old(ctx)),
            old(ctx).wf(),
        ensures
            final(ctx).wf(),
            final(self).is_bound(),
            final(self).wf_in(*final(ctx)),
            final(self).name == old(self).name,
            final(self).slot == old(self).slot,
            final(self).read_spec(*final(ctx)) == value,
            final(ctx).slots@.len() == old(ctx).slots@.len(),
            final(ctx).objects@ == old(ctx).objects@,
            old(self).is_named() ==> *final(self) == *old(self)
                && final(ctx).slots@[old(self).slot_index()].value == value
                && final(ctx).slots@[old(self).slot_index()].name@
                    == old(ctx).slots@[old(self).slot_index()].name@,
            forall|j: int|
                0 <= j < old(ctx).slots@.len()
                && (!old(self).is_named() || j != old(self).slot_index())
                    ==> final(ctx).slots@[j] == old(ctx).slots@[j],
            !old(self).is_named() ==> *final(ctx) == *old(ctx) && final(self).value == value,
    {
        match &self.name {
            Some(_) => {
                match &self.slot {
                    Some(i) => ctx.write_slot(*i, value),
                    None => vstd::pervasive::unreached(),
                }
            },
            None => {
                self.value = value;
            },
        }
    }

    /// Release the binding and leave the bound state. Idempotent and safe
    /// after a failed warmup: it never fails, and afterwards no resolved
    /// slot is held, whatever state the binding was in.
    pub fn cleanup(&mut self)
        ensures
            !final(self).is_bound(),
            final(self).slot is None,
            final(self).name == old(self).name,
            final(self).value == old(self).value,
    {
        self.slot = None;
        self.bound = false;
    }
}

/// Write-then-read consistency through a shared slot: if two bindings are
/// bound to the same variable name in a well-formed context, then after a
/// write of `x` through the first (the relation `set` ensures between the
/// context before and after), a read through the second yields exactly `x`.
pub proof fn lemma_write_then_read(
    a: ParamVar,
    b: ParamVar,
    ctx1: ExecContext,
    ctx2: ExecContext,
    x: TaggedValue,
)
    requires
        ctx1.wf(),
        a.is_bound() && a.is_named() && a.wf_in(ctx1),
        b.is_bound() && b.is_named() && b.wf_in(ctx1),
        a.var_name() == b.var_name(),
        ctx2.slots@.len() == ctx1.slots@.len(),
        ctx2.slots@[a.slot_index()].value == x,
        forall|j: int|
            0 <= j < ctx1.slots@.len() && j != a.slot_index() ==> ctx2.slots@[j] == ctx1.slots@[j],
    ensures
        b.read_spec(ctx2) == x,
{
    assert(ctx1.slots@[a.slot_index()].name@ == ctx1.slots@[b.slot_index()].name@);
    if a.slot_index() != b.slot_index() {
        assert(ctx1.slots@[a.slot_index()].name@ != ctx1.slots@[b.slot_index()].name@);
    }
}

} // verus!
