//! Bounds-checked views of a native call's argument vector.
//!
//! A call trampoline exposes its arguments as a contiguous run of value
//! slots plus a count. The layout convention around the first argument is
//! fixed: the return-value slot sits two positions before it and is shared
//! with the callee value (the result overwrites the callee in place), the
//! `this` value sits one position before it, and a construction call's
//! new-target sits one position past the last declared argument.
//!
//! `get`-style access is permissive: an index at or past the declared count
//! yields the shared undefined sentinel, mirroring the language's missing-
//! argument semantics. `index`-style access is for callers that have already
//! established the index is in range, and demands it.

use vstd::prelude::*;

use crate::context::Context;
use crate::handles::Handle;
use crate::handles::HandleLocation;
use crate::handles::HandleValue;
use crate::handles::MutableHandle;
use crate::handles::MutableHandleValue;
use crate::values::ObjectRef;
use crate::values::Value;

verus! {

/// The arguments of one native call.
#[derive(Clone, Copy, Debug, PartialEq, Eq, Structural)]
pub struct CallArgs {
    /// Registry index of the first argument slot.
    pub argv: usize,
    /// The call's declared argument count.
    pub argc: u32,
    /// Whether this is a construction call, whose new-target slot is valid.
    pub constructing: bool,
}

impl CallArgs {
    /// Structural well-formedness: the fixed slots before the first argument
    /// exist, and every position of the frame has an index.
    pub open spec fn wf(self) -> bool {
        &&& self.argv >= 2
        &&& self.argv + self.argc + 1 <= usize::MAX
    }

    /// Whether the whole frame lies inside `cx`'s registry.
    pub open spec fn valid(self, cx: Context) -> bool {
        &&& self.wf()
        &&& self.argv + self.argc + (if self.constructing {
            1int
        } else {
            0int
        }) <= cx.slots@.len()
    }

    /// Registry index of argument `i`.
    pub open spec fn arg_slot(self, i: int) -> int {
        self.argv + i
    }

    /// Registry index of the return-value slot: two before the first
    /// argument.
    pub open spec fn rval_slot(self) -> int {
        self.argv - 2
    }

    /// Registry index of the callee value: the same slot the call result
    /// will overwrite.
    pub open spec fn calleev_slot(self) -> int {
        self.argv - 2
    }

    /// Registry index of the `this` value: one before the first argument.
    pub open spec fn thisv_slot(self) -> int {
        self.argv - 1
    }

    /// Registry index of a construction call's new-target: one past the last
    /// declared argument.
    pub open spec fn new_target_slot(self) -> int {
        self.argv + self.argc
    }

    /// The arguments of a call whose callee slot is at registry index `vp`:
    /// the arguments start two slots later.
    pub fn from_vp(vp: usize, argc: u32, constructing: bool) -> (args: CallArgs)
        requires
            vp + 2 + argc + 1 <= usize::MAX,
        ensures
            args.argv == vp + 2,
            args.argc == argc,
            args.constructing == constructing,
            args.wf(),
            args.calleev_slot() == vp,
    {
        CallArgs { argv: vp + 2, argc, constructing }
    }

    /// Permissive argument access: a handle on argument `i` when the call
    /// declared one, and the shared undefined sentinel otherwise — missing
    /// arguments read as undefined rather than failing.
    pub fn get(&self, i: u32) -> (h: HandleValue)
        requires
            self.wf(),
        ensures
            i < self.argc ==> h.loc == HandleLocation::Slot(self.arg_slot(i as int) as usize),
            i >= self.argc ==> h.loc == HandleLocation::Immediate(Value::Undefined),
            i >= self.argc ==> forall|cx: Context| h.spec_get(cx) == Value::Undefined,
    {
        if i < self.argc {
            Handle { loc: HandleLocation::Slot(self.argv + i as usize) }
        } else {
            Handle::undefined()
        }
    }

    /// Asserted argument access: the caller has already established that the
    /// index is in range.
    pub fn index(&self, i: u32) -> (h: HandleValue)
        requires
            self.wf(),
            i < self.argc,
        ensures
            h.loc == HandleLocation::Slot(self.arg_slot(i as int) as usize),
    {
        Handle { loc: HandleLocation::Slot(self.argv + i as usize) }
    }

    /// Asserted mutable argument access.
    pub fn index_mut(&self, i: u32) -> (h: MutableHandleValue)
        requires
            self.wf(),
            i < self.argc,
        ensures
            h.slot == self.arg_slot(i as int) as usize,
    {
        MutableHandle { slot: self.argv + i as usize }
    }

    /// The return-value slot, written by the native implementation before it
    /// returns.
    pub fn rval(&self) -> (h: MutableHandleValue)
        requires
            self.wf(),
        ensures
            h.slot == self.rval_slot() as usize,
    {
        MutableHandle { slot: self.argv - 2 }
    }

    /// The `this` value of the call.
    pub fn thisv(&self) -> (h: HandleValue)
        requires
            self.wf(),
        ensures
            h.loc == HandleLocation::Slot(self.thisv_slot() as usize),
    {
        Handle { loc: HandleLocation::Slot(self.argv - 1) }
    }

    /// The callee value: until the call result is written, the contents of
    /// the return-value slot.
    pub fn calleev(&self) -> (h: HandleValue)
        requires
            self.wf(),
        ensures
            h.loc == HandleLocation::Slot(self.calleev_slot() as usize),
    {
        Handle { loc: HandleLocation::Slot(self.argv - 2) }
    }

    /// The callee as an object reference. The callee slot of a live call
    /// always holds an object.
    pub fn callee(&self, cx: &Context) -> (o: ObjectRef)
        requires
            self.valid(*cx),
            cx.slots@[self.calleev_slot()].value is Object,
        ensures
            cx.slots@[self.calleev_slot()].value == Value::Object(o.raw),
    {
        match self.calleev().get(cx) {
            Value::Object(raw) => ObjectRef { raw },
            _ => {
                proof {
                    assert(false);
                }
                ObjectRef { raw: 0 }
            },
        }
    }

    /// The new-target slot of a construction call; only such a call has one.
    pub fn new_target(&self) -> (h: MutableHandleValue)
        requires
            self.wf(),
            self.constructing,
        ensures
            h.slot == self.new_target_slot() as usize,
    {
        MutableHandle { slot: self.argv + self.argc as usize }
    }
}

/// The return-value slot and the callee value share one slot — two positions
/// before the first argument — so writing the result overwrites the callee
/// in place.
pub proof fn lemma_rval_overwrites_calleev(args: CallArgs)
    ensures
        args.rval_slot() == args.calleev_slot(),
        args.rval_slot() == args.argv - 2,
{
}

/// The arguments of one jit-compiled method call: the same frame layout,
/// exposed to jit-generated trampolines.
#[derive(Clone, Copy, Debug, PartialEq, Eq, Structural)]
pub struct JSJitMethodCallArgs {
    /// Registry index of the first argument slot.
    pub argv: usize,
    /// The call's declared argument count.
    pub argc: u32,
}

impl JSJitMethodCallArgs {
    /// Structural well-formedness: every argument position has an index.
    pub open spec fn wf(self) -> bool {
        self.argv + self.argc <= usize::MAX
    }

    /// Registry index of argument `i`.
    pub open spec fn arg_slot(self, i: int) -> int {
        self.argv + i
    }

    /// Permissive argument access, as for [`CallArgs::get`]: missing
    /// arguments read as the undefined sentinel.
    pub fn get(&self, i: u32) -> (h: HandleValue)
        requires
            self.wf(),
        ensures
            i < self.argc ==> h.loc == HandleLocation::Slot(self.arg_slot(i as int) as usize),
            i >= self.argc ==> h.loc == HandleLocation::Immediate(Value::Undefined),
            i >= self.argc ==> forall|cx: Context| h.spec_get(cx) == Value::Undefined,
    {
        if i < self.argc {
            Handle { loc: HandleLocation::Slot(self.argv + i as usize) }
        } else {
            Handle::undefined()
        }
    }

    /// Asserted argument access.
    pub fn index(&self, i: u32) -> (h: HandleValue)
        requires
            self.wf(),
            i < self.argc,
        ensures
            h.loc == HandleLocation::Slot(self.arg_slot(i as int) as usize),
    {
        Handle { loc: HandleLocation::Slot(self.argv + i as usize) }
    }

    /// Asserted mutable argument access.
    pub fn index_mut(&self, i: u32) -> (h: MutableHandleValue)
        requires
            self.wf(),
            i < self.argc,
        ensures
            h.slot == self.arg_slot(i as int) as usize,
    {
        MutableHandle { slot: self.argv + i as usize }
    }
}

/// The arguments of one jit-compiled property setter call: exactly one
/// argument, the value being stored.
#[derive(Clone, Copy, Debug, PartialEq, Eq, Structural)]
pub struct JSJitSetterCallArgs {
    /// The slot holding the value being stored.
    pub _base: MutableHandle,
}

impl JSJitSetterCallArgs {
    /// A setter has exactly one argument, so only index zero is meaningful.
    pub fn get(&self, i: u32) -> (h: HandleValue)
        requires
            i == 0,
        ensures
            h.loc == HandleLocation::Slot(self._base.slot),
    {
        self._base.handle()
    }
}

} // verus!
