//! The rooted-value lifecycle: registration on a root list, strictly LIFO
//! deregistration, and reads and writes of the rooted payload.
//!
//! A [`Rooted`] owns one stack slot of the registry for as long as it is
//! linked. Registration is an O(1) push at the head of the bucket chosen by
//! the value's root kind; deregistration is the matching O(1) pop, legal only
//! while the node is the current head of its bucket. Unlinking out of that
//! order is a consistency violation: [`Rooted::try_remove_from_root_stack`]
//! detects it and refuses to touch the list, so the bucket head never ends up
//! pointing at unlinked storage.

use vstd::prelude::*;

use crate::context::Context;
use crate::context::Slot;
use crate::context::bucket_head;
use crate::context::pop_root;
use crate::context::push_root;
use crate::context::lemma_pop_root_of_push_root;
use crate::handles::Handle;
use crate::handles::HandleLocation;
use crate::handles::MutableHandle;
use crate::kinds::ROOT_KIND_COUNT;
use crate::kinds::RootKind;
use crate::values::Value;

verus! {

/// A stack-resident node holding one rootable value.
///
/// While linked, the node's payload lives in the registry slot `slot` points
/// at, where the collector can find and rewrite it; `prev` captures the
/// bucket head as it was at registration, and `in_zone` records which root
/// list the node was registered with.
pub struct Rooted {
    /// The bucket this node links into.
    pub kind: RootKind,
    /// The payload while the node is unlinked. On registration it moves into
    /// the registry; on deregistration the slot's current contents move back.
    pub value: Value,
    /// The registry slot holding the payload while linked; `None` otherwise.
    pub slot: Option<usize>,
    /// The head of the bucket at registration time, if there was one.
    pub prev: Option<usize>,
    /// Whether the node registered on the zone's root list (as opposed to
    /// the thread's default list).
    pub in_zone: bool,
}

impl Rooted {
    /// The buckets of the root list this node registered with.
    pub open spec fn home_roots(self, cx: Context) -> Seq<Seq<usize>> {
        if self.in_zone {
            cx.zone_roots@
        } else {
            cx.thread_roots@
        }
    }

    /// Whether this node is linked and is the current head of its bucket —
    /// the only position from which it may be unlinked.
    pub open spec fn is_bucket_head(self, cx: Context) -> bool {
        &&& self.slot is Some
        &&& bucket_head(self.home_roots(cx), self.kind) == self.slot
    }

    /// A fresh, unlinked node for payloads of type `T`, holding the zeroed
    /// (undefined) payload. The bucket is `T`'s classification.
    pub fn new_unrooted<T: crate::rooting::RootKind>() -> (r: Rooted)
        ensures
            r.kind == T::spec_root_kind(),
            r.value == Value::Undefined,
            r.slot is None,
            r.prev is None,
            !r.in_zone,
    {
        Rooted {
            kind: T::rootKind(),
            value: Value::Undefined,
            slot: None,
            prev: None,
            in_zone: false,
        }
    }

    /// Registers the node: moves the payload into a fresh stack slot of the
    /// registry, captures the current head of the bucket for the node's kind
    /// on the active root list (the zone's if a zone is active, else the
    /// thread's), and links the node at that bucket's head.
    pub fn add_to_root_stack(&mut self, cx: &mut Context)
        requires
            old(self).slot is None,
            old(cx).wf(),
            old(cx).slots@.len() < usize::MAX,
        ensures
            final(cx).wf(),
            final(self).kind == old(self).kind,
            final(self).value == old(self).value,
            final(self).in_zone == old(cx).has_zone,
            final(self).slot == Some(old(cx).slots@.len() as usize),
            final(self).prev == bucket_head(old(cx).active_roots(), old(self).kind),
            final(self).is_bucket_head(*final(cx)),
            final(cx).slots@ == old(cx).slots@.push(
                Slot { value: old(self).value, heap_owned: false },
            ),
            final(cx).active_roots() == push_root(
                old(cx).active_roots(),
                old(self).kind,
                old(cx).slots@.len() as usize,
            ),
            old(cx).has_zone ==> final(cx).thread_roots@ == old(cx).thread_roots@,
            !old(cx).has_zone ==> final(cx).zone_roots@ == old(cx).zone_roots@,
            final(cx).has_zone == old(cx).has_zone,
            final(cx).compartment == old(cx).compartment,
            final(cx).barrier_log@ == old(cx).barrier_log@,
    {
        let slot_id = cx.slots.len();
        cx.slots.push(Slot { value: self.value, heap_owned: false });
        self.in_zone = cx.has_zone;
        if cx.has_zone {
            self.prev = cx.zone_roots.head(self.kind);
            cx.zone_roots.link(self.kind, slot_id);
        } else {
            self.prev = cx.thread_roots.head(self.kind);
            cx.thread_roots.link(self.kind, slot_id);
        }
        self.slot = Some(slot_id);
    }

    /// Deregisters the node, which must be the current head of its bucket
    /// (strict LIFO); the bucket head reverts to the previously linked node.
    /// The slot's current contents — possibly relocated by the collector
    /// since registration — move back into the node.
    pub fn remove_from_root_stack(&mut self, cx: &mut Context)
        requires
            old(cx).wf(),
            old(self).is_bucket_head(*old(cx)),
        ensures
            final(cx).wf(),
            final(self).kind == old(self).kind,
            final(self).slot is None,
            final(self).prev == old(self).prev,
            final(self).in_zone == old(self).in_zone,
            final(self).value == old(cx).slots@[old(self).slot->0 as int].value,
            final(self).home_roots(*final(cx)) == pop_root(
                old(self).home_roots(*old(cx)),
                old(self).kind,
            ),
            old(self).in_zone ==> final(cx).thread_roots@ == old(cx).thread_roots@,
            !old(self).in_zone ==> final(cx).zone_roots@ == old(cx).zone_roots@,
            final(cx).slots@ == old(cx).slots@,
            final(cx).has_zone == old(cx).has_zone,
            final(cx).compartment == old(cx).compartment,
            final(cx).barrier_log@ == old(cx).barrier_log@,
    {
        let slot_id = match self.slot {
            Some(s) => s,
            None => 0,
        };
        proof {
            let buckets = self.home_roots(*cx);
            let k = self.kind.bucket_index();
            assert(buckets[k][buckets[k].len() - 1] < cx.slots@.len());
        }
        self.value = cx.read_slot(slot_id);
        if self.in_zone {
            cx.zone_roots.unlink_head(self.kind);
        } else {
            cx.thread_roots.unlink_head(self.kind);
        }
        self.slot = None;
    }

    /// Deregisters the node if and only if it is the current head of its
    /// bucket. Destruction out of LIFO order is thereby detected rather than
    /// tolerated: when the node is not the head, nothing changes — neither
    /// the node nor any list — and the bucket head keeps pointing at linked
    /// storage.
    pub fn try_remove_from_root_stack(&mut self, cx: &mut Context) -> (removed: bool)
        requires
            old(cx).wf(),
            old(self).slot is Some,
        ensures
            removed == old(self).is_bucket_head(*old(cx)),
            final(cx).wf(),
            removed ==> {
                &&& final(self).kind == old(self).kind
                &&& final(self).slot is None
                &&& final(self).value == old(cx).slots@[old(self).slot->0 as int].value
                &&& final(self).home_roots(*final(cx)) == pop_root(
                    old(self).home_roots(*old(cx)),
                    old(self).kind,
                )
                &&& old(self).in_zone ==> final(cx).thread_roots@ == old(cx).thread_roots@
                &&& !old(self).in_zone ==> final(cx).zone_roots@ == old(cx).zone_roots@
                &&& final(cx).slots@ == old(cx).slots@
                &&& final(cx).has_zone == old(cx).has_zone
                &&& final(cx).compartment == old(cx).compartment
                &&& final(cx).barrier_log@ == old(cx).barrier_log@
            },
            !removed ==> *final(self) == *old(self) && *final(cx) == *old(cx),
    {
        let slot_id = match self.slot {
            Some(s) => s,
            None => 0,
        };
        let head = if self.in_zone {
            cx.zone_roots.head(self.kind)
        } else {
            cx.thread_roots.head(self.kind)
        };
        let at_head = match head {
            Some(h) => h == slot_id,
            None => false,
        };
        if at_head {
            self.remove_from_root_stack(cx);
            true
        } else {
            false
        }
    }

    /// A read-only view of the linked node's slot. It observes the slot's
    /// current contents, including rewrites the collector makes in place.
    pub fn handle(&self) -> (h: Handle)
        requires
            self.slot is Some,
        ensures
            h.loc == HandleLocation::Slot(self.slot->0),
    {
        let slot_id = match self.slot {
            Some(s) => s,
            None => 0,
        };
        Handle { loc: HandleLocation::Slot(slot_id) }
    }

    /// A read-write view of the linked node's slot.
    pub fn mutable_handle(&self) -> (h: MutableHandle)
        requires
            self.slot is Some,
        ensures
            h.slot == self.slot->0,
    {
        let slot_id = match self.slot {
            Some(s) => s,
            None => 0,
        };
        MutableHandle { slot: slot_id }
    }

    /// Reads the linked node's current payload.
    pub fn get(&self, cx: &Context) -> (v: Value)
        requires
            self.slot is Some,
            self.slot->0 < cx.slots@.len(),
        ensures
            v == cx.slots@[self.slot->0 as int].value,
    {
        let slot_id = match self.slot {
            Some(s) => s,
            None => 0,
        };
        cx.read_slot(slot_id)
    }

    /// Overwrites the linked node's payload. A rooted node's slot is
    /// stack-owned, so no post-barrier fires.
    pub fn set(&self, cx: &mut Context, v: Value)
        requires
            old(cx).wf(),
            self.slot is Some,
            self.slot->0 < old(cx).slots@.len(),
            !old(cx).slots@[self.slot->0 as int].heap_owned,
        ensures
            final(cx).wf(),
            final(cx).slots@ == old(cx).slots@.update(
                self.slot->0 as int,
                Slot { value: v, heap_owned: false },
            ),
            final(cx).barrier_log@ == old(cx).barrier_log@,
            final(cx).thread_roots@ == old(cx).thread_roots@,
            final(cx).zone_roots@ == old(cx).zone_roots@,
            final(cx).has_zone == old(cx).has_zone,
            final(cx).compartment == old(cx).compartment,
    {
        let slot_id = match self.slot {
            Some(s) => s,
            None => 0,
        };
        cx.set_slot(slot_id, v);
    }
}

/// The buckets after a sequence of nested registrations, first registration
/// first.
pub open spec fn roots_after_registrations(
    buckets: Seq<Seq<usize>>,
    regs: Seq<(RootKind, usize)>,
) -> Seq<Seq<usize>>
    decreases regs.len(),
{
    if regs.len() == 0 {
        buckets
    } else {
        roots_after_registrations(push_root(buckets, regs[0].0, regs[0].1), regs.drop_first())
    }
}

/// The buckets after the registrations in `regs` are destroyed in reverse
/// registration order: the later registrations are unlinked first, then the
/// first one.
pub open spec fn roots_after_reverse_removals(
    buckets: Seq<Seq<usize>>,
    regs: Seq<(RootKind, usize)>,
) -> Seq<Seq<usize>>
    decreases regs.len(),
{
    if regs.len() == 0 {
        buckets
    } else {
        pop_root(roots_after_reverse_removals(buckets, regs.drop_first()), regs[0].0)
    }
}

/// Round trip of the rooting protocol: any sequence of nested registrations
/// followed by destruction in reverse order returns every bucket — in
/// particular every bucket head — to its value before the first
/// registration.
pub proof fn lemma_rooting_round_trip(buckets: Seq<Seq<usize>>, regs: Seq<(RootKind, usize)>)
    requires
        buckets.len() == ROOT_KIND_COUNT,
    ensures
        roots_after_reverse_removals(roots_after_registrations(buckets, regs), regs) == buckets,
    decreases regs.len(),
{
    if regs.len() > 0 {
        let pushed = push_root(buckets, regs[0].0, regs[0].1);
        assert(pushed.len() == ROOT_KIND_COUNT);
        lemma_rooting_round_trip(pushed, regs.drop_first());
        lemma_pop_root_of_push_root(buckets, regs[0].0, regs[0].1);
    }
}

} // verus!
