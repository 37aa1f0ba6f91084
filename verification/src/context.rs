//! The per-thread execution context: the slot registry, the root lists,
//! the post-barrier log and the current compartment.
//!
//! Native code never reaches this state through ambient globals; every
//! operation takes the owning [`Context`] explicitly, so thread confinement
//! is visible in each signature. Value locations (rooted stack nodes,
//! collector-owned heap slots and call-frame slots) live in one registry and
//! are addressed by index; the root lists hold indices of the currently
//! linked stack roots, one bucket per [`RootKind`].

use vstd::prelude::*;

use crate::kinds::ROOT_KIND_COUNT;
use crate::kinds::RootKind;
use crate::values::Value;

verus! {

/// One addressable value location in the registry.
#[derive(Clone, Copy, Debug, PartialEq, Eq, Structural)]
pub struct Slot {
    /// The reference or value currently stored here. While the location is
    /// linked on a root list, the collector may rewrite it in place.
    pub value: Value,
    /// True for collector-owned (heap) locations, whose mutation must route
    /// through the post-barrier; false for stack locations, which the
    /// collector rescans in full on every collection.
    pub heap_owned: bool,
}

/// One recorded post-barrier invocation.
#[derive(Clone, Copy, Debug, PartialEq, Eq, Structural)]
pub struct BarrierEvent {
    /// The heap slot that was overwritten.
    pub slot: usize,
    /// The reference the slot held before the write.
    pub old_value: Value,
    /// The reference the slot holds after the write.
    pub new_value: Value,
}

/// A root list: one bucket of linked stack roots per [`RootKind`].
///
/// Each bucket is a stack of slot indices; its head is the most recently
/// linked root. Linking pushes, unlinking pops, so the in-memory order is
/// exactly the registration order.
pub struct RootList {
    pub objects: Vec<usize>,
    pub strings: Vec<usize>,
    pub scripts: Vec<usize>,
    pub symbols: Vec<usize>,
    pub ids: Vec<usize>,
    pub values: Vec<usize>,
    pub traceables: Vec<usize>,
}

impl View for RootList {
    type V = Seq<Seq<usize>>;

    /// The buckets in [`RootKind::bucket_index`] order.
    open spec fn view(&self) -> Seq<Seq<usize>> {
        seq![
            self.objects@,
            self.strings@,
            self.scripts@,
            self.symbols@,
            self.ids@,
            self.values@,
            self.traceables@,
        ]
    }
}

/// The buckets after a root for `slot` is linked into bucket `k`.
pub open spec fn push_root(buckets: Seq<Seq<usize>>, k: RootKind, slot: usize) -> Seq<Seq<usize>> {
    buckets.update(k.bucket_index(), buckets[k.bucket_index()].push(slot))
}

/// The buckets after the head of bucket `k` is unlinked.
pub open spec fn pop_root(buckets: Seq<Seq<usize>>, k: RootKind) -> Seq<Seq<usize>> {
    buckets.update(k.bucket_index(), buckets[k.bucket_index()].drop_last())
}

/// The head of bucket `k`: the most recently linked root, if any.
pub open spec fn bucket_head(buckets: Seq<Seq<usize>>, k: RootKind) -> Option<usize> {
    if buckets[k.bucket_index()].len() == 0 {
        None
    } else {
        Some(buckets[k.bucket_index()].last())
    }
}

/// Unlinking a freshly linked root restores the buckets exactly.
pub proof fn lemma_pop_root_of_push_root(buckets: Seq<Seq<usize>>, k: RootKind, slot: usize)
    requires
        buckets.len() == ROOT_KIND_COUNT,
    ensures
        pop_root(push_root(buckets, k, slot), k) == buckets,
{
    let pushed = push_root(buckets, k, slot);
    assert(pushed[k.bucket_index()].drop_last() =~= buckets[k.bucket_index()]);
    assert(pop_root(pushed, k) =~~= buckets);
}

impl RootList {
    /// A root list with every bucket empty.
    pub fn new() -> (l: RootList)
        ensures
            l@ == empty_buckets(),
    {
        let l = RootList {
            objects: Vec::new(),
            strings: Vec::new(),
            scripts: Vec::new(),
            symbols: Vec::new(),
            ids: Vec::new(),
            values: Vec::new(),
            traceables: Vec::new(),
        };
        proof {
            assert(l@ =~~= empty_buckets());
        }
        l
    }

    /// The head of bucket `k`, if the bucket is not empty.
    pub fn head(&self, k: RootKind) -> (h: Option<usize>)
        ensures
            h == bucket_head(self@, k),
    {
        match k {
            RootKind::Object => top(&self.objects),
            RootKind::String => top(&self.strings),
            RootKind::Script => top(&self.scripts),
            RootKind::Symbol => top(&self.symbols),
            RootKind::Id => top(&self.ids),
            RootKind::Value => top(&self.values),
            RootKind::Traceable => top(&self.traceables),
        }
    }

    /// Links a root for `slot` at the head of bucket `k`.
    pub fn link(&mut self, k: RootKind, slot: usize)
        ensures
            final(self)@ == push_root(old(self)@, k, slot),
    {
        match k {
            RootKind::Object => self.objects.push(slot),
            RootKind::String => self.strings.push(slot),
            RootKind::Script => self.scripts.push(slot),
            RootKind::Symbol => self.symbols.push(slot),
            RootKind::Id => self.ids.push(slot),
            RootKind::Value => self.values.push(slot),
            RootKind::Traceable => self.traceables.push(slot),
        }
        proof {
            assert(self@ =~~= push_root(old(self)@, k, slot));
        }
    }

    /// Unlinks the head of bucket `k`.
    pub fn unlink_head(&mut self, k: RootKind)
        requires
            bucket_head(old(self)@, k) is Some,
        ensures
            final(self)@ == pop_root(old(self)@, k),
    {
        match k {
            RootKind::Object => { self.objects.pop(); },
            RootKind::String => { self.strings.pop(); },
            RootKind::Script => { self.scripts.pop(); },
            RootKind::Symbol => { self.symbols.pop(); },
            RootKind::Id => { self.ids.pop(); },
            RootKind::Value => { self.values.pop(); },
            RootKind::Traceable => { self.traceables.pop(); },
        }
        proof {
            assert(self@ =~~= pop_root(old(self)@, k));
        }
    }
}

/// The buckets of an empty root list.
pub open spec fn empty_buckets() -> Seq<Seq<usize>> {
    Seq::new(ROOT_KIND_COUNT as nat, |i: int| Seq::empty())
}

/// The head of a non-empty vector of slot indices.
fn top(v: &Vec<usize>) -> (h: Option<usize>)
    ensures
        h == (if v@.len() == 0 {
            None::<usize>
        } else {
            Some(v@.last())
        }),
{
    if v.len() == 0 {
        None
    } else {
        Some(v[v.len() - 1])
    }
}

/// Every index a root list links is a stack-owned slot of the registry.
pub open spec fn buckets_wf(buckets: Seq<Seq<usize>>, slots: Seq<Slot>) -> bool {
    forall|k: int, i: int|
        0 <= k < buckets.len() && 0 <= i < buckets[k].len() ==> {
            &&& #[trigger] buckets[k][i] < slots.len()
            &&& !slots[buckets[k][i] as int].heap_owned
        }
}

/// The per-thread execution context.
pub struct Context {
    /// The slot registry: every value location native code can address.
    pub slots: Vec<Slot>,
    /// The thread's default root list, used while no zone is active (some
    /// rooting happens during context bootstrap, before zone assignment).
    pub thread_roots: RootList,
    /// The active zone's root list; consulted only while `has_zone` is set.
    pub zone_roots: RootList,
    /// Whether the context has been assigned an active zone.
    pub has_zone: bool,
    /// The compartment the context is currently inside, if any.
    pub compartment: Option<u64>,
    /// Every post-barrier invocation so far, oldest first.
    pub barrier_log: Vec<BarrierEvent>,
}

impl Context {
    /// Both root lists only link stack-owned slots of the registry.
    pub open spec fn wf(self) -> bool {
        &&& buckets_wf(self.thread_roots@, self.slots@)
        &&& buckets_wf(self.zone_roots@, self.slots@)
    }

    /// The root list new registrations go to: the zone's once a zone is
    /// active, the thread's before that.
    pub open spec fn active_roots(self) -> Seq<Seq<usize>> {
        if self.has_zone {
            self.zone_roots@
        } else {
            self.thread_roots@
        }
    }

    /// A fresh context: no slots, no roots, no zone, outside any compartment.
    pub fn new() -> (cx: Context)
        ensures
            cx.wf(),
            cx.slots@ == Seq::<Slot>::empty(),
            cx.thread_roots@ == empty_buckets(),
            cx.zone_roots@ == empty_buckets(),
            !cx.has_zone,
            cx.compartment is None,
            cx.barrier_log@ == Seq::<BarrierEvent>::empty(),
    {
        Context {
            slots: Vec::new(),
            thread_roots: RootList::new(),
            zone_roots: RootList::new(),
            has_zone: false,
            compartment: None,
            barrier_log: Vec::new(),
        }
    }

    /// Activates the context's zone: registrations from now on go to the
    /// zone's root list. Roots already linked stay on the list they were
    /// registered with.
    pub fn assign_zone(&mut self)
        requires
            !old(self).has_zone,
        ensures
            final(self).has_zone,
            final(self).slots@ == old(self).slots@,
            final(self).thread_roots@ == old(self).thread_roots@,
            final(self).zone_roots@ == old(self).zone_roots@,
            final(self).compartment == old(self).compartment,
            final(self).barrier_log@ == old(self).barrier_log@,
    {
        self.has_zone = true;
    }

    /// Adds a collector-owned (heap) slot holding `v` and returns its index.
    /// Models the engine handing this layer a reference to long-lived memory.
    pub fn alloc_heap_slot(&mut self, v: Value) -> (s: usize)
        requires
            old(self).wf(),
            old(self).slots@.len() < usize::MAX,
        ensures
            final(self).wf(),
            s == old(self).slots@.len(),
            final(self).slots@ == old(self).slots@.push(Slot { value: v, heap_owned: true }),
            final(self).thread_roots@ == old(self).thread_roots@,
            final(self).zone_roots@ == old(self).zone_roots@,
            final(self).has_zone == old(self).has_zone,
            final(self).compartment == old(self).compartment,
            final(self).barrier_log@ == old(self).barrier_log@,
    {
        let s = self.slots.len();
        self.slots.push(Slot { value: v, heap_owned: true });
        s
    }

    /// Adds a stack-owned slot holding `v` and returns its index. Models an
    /// engine-managed stack location, such as one slot of a call frame.
    pub fn alloc_stack_slot(&mut self, v: Value) -> (s: usize)
        requires
            old(self).wf(),
            old(self).slots@.len() < usize::MAX,
        ensures
            final(self).wf(),
            s == old(self).slots@.len(),
            final(self).slots@ == old(self).slots@.push(Slot { value: v, heap_owned: false }),
            final(self).thread_roots@ == old(self).thread_roots@,
            final(self).zone_roots@ == old(self).zone_roots@,
            final(self).has_zone == old(self).has_zone,
            final(self).compartment == old(self).compartment,
            final(self).barrier_log@ == old(self).barrier_log@,
    {
        let s = self.slots.len();
        self.slots.push(Slot { value: v, heap_owned: false });
        s
    }

    /// Reads the value a slot currently holds.
    pub fn read_slot(&self, s: usize) -> (v: Value)
        requires
            s < self.slots@.len(),
        ensures
            v == self.slots@[s as int].value,
    {
        self.slots[s].value
    }

    /// Overwrites slot `s` with `v` on behalf of native code. A write to a
    /// collector-owned slot invokes the post-barrier, recording the slot with
    /// the old and the new value, exactly once; a write to a stack slot does
    /// not, since stack roots are rescanned in full at each collection.
    pub fn set_slot(&mut self, s: usize, v: Value)
        requires
            old(self).wf(),
            s < old(self).slots@.len(),
        ensures
            final(self).wf(),
            final(self).slots@ == old(self).slots@.update(
                s as int,
                Slot { value: v, heap_owned: old(self).slots@[s as int].heap_owned },
            ),
            old(self).slots@[s as int].heap_owned ==> final(self).barrier_log@ == old(
                self,
            ).barrier_log@.push(
                BarrierEvent {
                    slot: s,
                    old_value: old(self).slots@[s as int].value,
                    new_value: v,
                },
            ),
            !old(self).slots@[s as int].heap_owned ==> final(self).barrier_log@ == old(
                self,
            ).barrier_log@,
            final(self).thread_roots@ == old(self).thread_roots@,
            final(self).zone_roots@ == old(self).zone_roots@,
            final(self).has_zone == old(self).has_zone,
            final(self).compartment == old(self).compartment,
    {
        let previous = self.slots[s];
        self.slots[s] = Slot { value: v, heap_owned: previous.heap_owned };
        if previous.heap_owned {
            self.barrier_log.push(
                BarrierEvent { slot: s, old_value: previous.value, new_value: v },
            );
        }
    }

    /// Rewrites slot `s` in place on behalf of the collector, which may
    /// relocate a referent during a collection pass. List linkage is left
    /// untouched and no post-barrier fires: the collector maintains its own
    /// bookkeeping.
    pub fn relocate(&mut self, s: usize, v: Value)
        requires
            old(self).wf(),
            s < old(self).slots@.len(),
        ensures
            final(self).wf(),
            final(self).slots@ == old(self).slots@.update(
                s as int,
                Slot { value: v, heap_owned: old(self).slots@[s as int].heap_owned },
            ),
            final(self).thread_roots@ == old(self).thread_roots@,
            final(self).zone_roots@ == old(self).zone_roots@,
            final(self).has_zone == old(self).has_zone,
            final(self).compartment == old(self).compartment,
            final(self).barrier_log@ == old(self).barrier_log@,
    {
        let heap_owned = self.slots[s].heap_owned;
        self.slots[s] = Slot { value: v, heap_owned };
    }
}

} // verus!
