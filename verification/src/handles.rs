//! Non-owning views of rooted or collector-owned value slots.
//!
//! A [`Handle`] reads a slot; a [`MutableHandle`] also overwrites it, routing
//! writes to heap-owned slots through the post-barrier. Neither participates
//! in root-list linkage: the referenced location must already be protected,
//! either as a live rooted node or as a collector-owned slot.

use vstd::prelude::*;

use crate::context::BarrierEvent;
use crate::context::Context;
use crate::context::Slot;
use crate::values::Value;

verus! {

/// Where a read-only handle points: a slot of the registry, or a fixed
/// immediate used for the shared undefined and null sentinel handles.
#[derive(Clone, Copy, Debug, PartialEq, Eq, Structural)]
pub enum HandleLocation {
    Slot(usize),
    Immediate(Value),
}

/// A read-only, non-owning view of one value location.
#[derive(Clone, Copy, Debug, PartialEq, Eq, Structural)]
pub struct Handle {
    pub loc: HandleLocation,
}

/// `HandleValue` names a read-only view of a generic value slot.
pub type HandleValue = Handle;

impl Handle {
    /// The value this handle observes in `cx`: always the slot's current
    /// contents, never a copy taken earlier.
    pub open spec fn spec_get(self, cx: Context) -> Value {
        match self.loc {
            HandleLocation::Slot(s) => cx.slots@[s as int].value,
            HandleLocation::Immediate(v) => v,
        }
    }

    /// Whether the handle's location exists in `cx`.
    pub open spec fn valid(self, cx: Context) -> bool {
        match self.loc {
            HandleLocation::Slot(s) => s < cx.slots@.len(),
            HandleLocation::Immediate(_) => true,
        }
    }

    /// A handle onto slot `s`, which the caller knows to be protected: it is
    /// inside a live rooted node or is a collector-owned slot.
    pub fn from_marked_location(s: usize) -> (h: Handle)
        ensures
            h.loc == HandleLocation::Slot(s),
    {
        Handle { loc: HandleLocation::Slot(s) }
    }

    /// The shared handle that observes the null value in every context.
    pub fn null() -> (h: Handle)
        ensures
            h.loc == HandleLocation::Immediate(Value::Null),
            forall|cx: Context| h.spec_get(cx) == Value::Null,
    {
        Handle { loc: HandleLocation::Immediate(Value::Null) }
    }

    /// The shared handle that observes the undefined sentinel in every
    /// context.
    pub fn undefined() -> (h: Handle)
        ensures
            h.loc == HandleLocation::Immediate(Value::Undefined),
            forall|cx: Context| h.spec_get(cx) == Value::Undefined,
    {
        Handle { loc: HandleLocation::Immediate(Value::Undefined) }
    }

    /// Reads the value the handle currently observes.
    pub fn get(&self, cx: &Context) -> (v: Value)
        requires
            self.valid(*cx),
        ensures
            v == self.spec_get(*cx),
    {
        match self.loc {
            HandleLocation::Slot(s) => cx.read_slot(s),
            HandleLocation::Immediate(v) => v,
        }
    }
}

/// A handle observes the slot's current value: after the collector relocates
/// the referent and rewrites the slot in place, the same handle reads the new
/// value, not a stale copy. The premises are exactly what
/// [`Context::relocate`] ensures of the contexts before and after the pass.
pub proof fn lemma_handle_observes_relocation(
    before: Context,
    after: Context,
    s: usize,
    v: Value,
    h: Handle,
)
    requires
        s < before.slots@.len(),
        after.slots@ == before.slots@.update(
            s as int,
            Slot { value: v, heap_owned: before.slots@[s as int].heap_owned },
        ),
        h.loc == HandleLocation::Slot(s),
    ensures
        h.valid(after),
        h.spec_get(after) == v,
{
}

/// A read-write, non-owning view of one value slot.
#[derive(Clone, Copy, Debug, PartialEq, Eq, Structural)]
pub struct MutableHandle {
    pub slot: usize,
}

/// `MutableHandleValue` names a read-write view of a generic value slot.
pub type MutableHandleValue = MutableHandle;

impl MutableHandle {
    /// The value this handle observes in `cx`.
    pub open spec fn spec_get(self, cx: Context) -> Value {
        cx.slots@[self.slot as int].value
    }

    /// Whether the handle's slot exists in `cx`.
    pub open spec fn valid(self, cx: Context) -> bool {
        self.slot < cx.slots@.len()
    }

    /// A mutable handle onto slot `s`, which the caller knows to be
    /// protected: it is inside a live rooted node or is a collector-owned
    /// slot.
    pub fn from_marked_location(s: usize) -> (h: MutableHandle)
        ensures
            h.slot == s,
    {
        MutableHandle { slot: s }
    }

    /// The read-only view of the same slot.
    pub fn handle(&self) -> (h: Handle)
        ensures
            h.loc == HandleLocation::Slot(self.slot),
            forall|cx: Context| h.spec_get(cx) == self.spec_get(cx),
            forall|cx: Context| h.valid(cx) == self.valid(cx),
    {
        Handle { loc: HandleLocation::Slot(self.slot) }
    }

    /// Reads the value the handle currently observes.
    pub fn get(&self, cx: &Context) -> (v: Value)
        requires
            self.valid(*cx),
        ensures
            v == self.spec_get(*cx),
    {
        cx.read_slot(self.slot)
    }

    /// Replaces the referenced value. A set that targets a heap-owned slot
    /// invokes the post-barrier with the old and the new value exactly once;
    /// a set that targets a stack-owned slot invokes it zero times.
    pub fn set(&self, cx: &mut Context, v: Value)
        requires
            old(cx).wf(),
            self.valid(*old(cx)),
        ensures
            final(cx).wf(),
            self.valid(*final(cx)),
            final(cx).slots@ == old(cx).slots@.update(
                self.slot as int,
                Slot { value: v, heap_owned: old(cx).slots@[self.slot as int].heap_owned },
            ),
            self.spec_get(*final(cx)) == v,
            old(cx).slots@[self.slot as int].heap_owned ==> final(cx).barrier_log@ == old(
                cx,
            ).barrier_log@.push(
                BarrierEvent {
                    slot: self.slot,
                    old_value: old(cx).slots@[self.slot as int].value,
                    new_value: v,
                },
            ),
            !old(cx).slots@[self.slot as int].heap_owned ==> final(cx).barrier_log@ == old(
                cx,
            ).barrier_log@,
            final(cx).thread_roots@ == old(cx).thread_roots@,
            final(cx).zone_roots@ == old(cx).zone_roots@,
            final(cx).has_zone == old(cx).has_zone,
            final(cx).compartment == old(cx).compartment,
    {
        cx.set_slot(self.slot, v);
    }
}

/// An owned run of values whose storage the caller has already rooted,
/// passed across the engine boundary as an argument vector.
pub struct HandleValueArray {
    pub elements: Vec<Value>,
}

impl HandleValueArray {
    /// An argument vector over the given rooted values.
    pub fn from_rooted_slice(values: &Vec<Value>) -> (a: HandleValueArray)
        ensures
            a.elements@ == values@,
    {
        let mut elements: Vec<Value> = Vec::new();
        let mut i: usize = 0;
        while i < values.len()
            invariant
                i <= values@.len(),
                elements@ == values@.subrange(0, i as int),
            decreases values@.len() - i,
        {
            elements.push(values[i]);
            proof {
                assert(elements@ =~= values@.subrange(0, i + 1));
            }
            i += 1;
        }
        proof {
            assert(elements@ =~= values@);
        }
        HandleValueArray { elements }
    }
}

/// A read-only view of an object-reference location. Only the shared null
/// handle and views of object-holding slots are ever constructed.
#[derive(Clone, Copy, Debug, PartialEq, Eq, Structural)]
pub struct HandleObject {
    pub loc: HandleLocation,
}

impl HandleObject {
    /// The value this handle observes in `cx`.
    pub open spec fn spec_get(self, cx: Context) -> Value {
        match self.loc {
            HandleLocation::Slot(s) => cx.slots@[s as int].value,
            HandleLocation::Immediate(v) => v,
        }
    }

    /// The shared handle that observes the null object reference in every
    /// context.
    pub fn null() -> (h: HandleObject)
        ensures
            h.loc == HandleLocation::Immediate(Value::Null),
            forall|cx: Context| h.spec_get(cx) == Value::Null,
    {
        HandleObject { loc: HandleLocation::Immediate(Value::Null) }
    }
}

} // verus!
