use jsglue::context::Context;
use jsglue::kinds::RootKind;
use jsglue::rooting::RootKind as _;
use jsglue::roots::Rooted;
use jsglue::values::FlatStringRef;
use jsglue::values::FunctionRef;
use jsglue::values::ObjectRef;
use jsglue::values::PropertyDescriptor;
use jsglue::values::ScriptRef;
use jsglue::values::StringRef;
use jsglue::values::SymbolRef;
use jsglue::values::Value;
use jsglue::values::jsid;

fn buckets_snapshot(cx: &Context) -> Vec<Vec<usize>> {
    vec![
        cx.thread_roots.objects.clone(),
        cx.thread_roots.strings.clone(),
        cx.thread_roots.scripts.clone(),
        cx.thread_roots.symbols.clone(),
        cx.thread_roots.ids.clone(),
        cx.thread_roots.values.clone(),
        cx.thread_roots.traceables.clone(),
        cx.zone_roots.objects.clone(),
        cx.zone_roots.strings.clone(),
        cx.zone_roots.scripts.clone(),
        cx.zone_roots.symbols.clone(),
        cx.zone_roots.ids.clone(),
        cx.zone_roots.values.clone(),
        cx.zone_roots.traceables.clone(),
    ]
}

#[test]
fn classifier_maps_each_type_to_its_bucket() {
    assert_eq!(ObjectRef::rootKind(), RootKind::Object);
    assert_eq!(FunctionRef::rootKind(), RootKind::Object);
    assert_eq!(StringRef::rootKind(), RootKind::String);
    assert_eq!(FlatStringRef::rootKind(), RootKind::String);
    assert_eq!(SymbolRef::rootKind(), RootKind::Symbol);
    assert_eq!(ScriptRef::rootKind(), RootKind::Script);
    assert_eq!(jsid::rootKind(), RootKind::Id);
    assert_eq!(Value::rootKind(), RootKind::Value);
    assert_eq!(PropertyDescriptor::rootKind(), RootKind::Traceable);
}

#[test]
fn new_unrooted_is_unlinked_and_zeroed() {
    let r = Rooted::new_unrooted::<ObjectRef>();
    assert_eq!(r.kind, RootKind::Object);
    assert_eq!(r.value, Value::Undefined);
    assert!(r.slot.is_none());
    assert!(r.prev.is_none());
}

#[test]
fn register_links_at_bucket_head() {
    let mut cx = Context::new();
    let mut r = Rooted::new_unrooted::<ObjectRef>();
    r.value = Value::Object(11);
    r.add_to_root_stack(&mut cx);
    assert_eq!(r.slot, Some(0));
    assert_eq!(r.prev, None);
    assert_eq!(cx.thread_roots.objects, vec![0]);
    assert_eq!(cx.slots[0].value, Value::Object(11));
    assert!(!cx.slots[0].heap_owned);
    r.remove_from_root_stack(&mut cx);
}

#[test]
fn nested_registrations_and_reverse_destruction_round_trip() {
    let mut cx = Context::new();

    // A pre-existing root so the bucket heads start out non-empty.
    let mut r0 = Rooted::new_unrooted::<Value>();
    r0.value = Value::Int(-1);
    r0.add_to_root_stack(&mut cx);

    let before = buckets_snapshot(&cx);

    let mut r1 = Rooted::new_unrooted::<Value>();
    let mut r2 = Rooted::new_unrooted::<ObjectRef>();
    let mut r3 = Rooted::new_unrooted::<Value>();
    let mut r4 = Rooted::new_unrooted::<StringRef>();
    r1.value = Value::Int(1);
    r2.value = Value::Object(2);
    r3.value = Value::Int(3);
    r4.value = Value::JsString(4);

    r1.add_to_root_stack(&mut cx);
    r2.add_to_root_stack(&mut cx);
    r3.add_to_root_stack(&mut cx);
    r4.add_to_root_stack(&mut cx);

    // Each node's saved previous head is the head its bucket had before it.
    assert_eq!(r1.prev, r0.slot);
    assert_eq!(r2.prev, None);
    assert_eq!(r3.prev, r1.slot);
    assert_eq!(r4.prev, None);

    r4.remove_from_root_stack(&mut cx);
    r3.remove_from_root_stack(&mut cx);
    r2.remove_from_root_stack(&mut cx);
    r1.remove_from_root_stack(&mut cx);

    assert_eq!(buckets_snapshot(&cx), before);

    // The value buckets' head is back to the pre-existing root.
    assert_eq!(cx.thread_roots.values.last().copied(), r0.slot);
    r0.remove_from_root_stack(&mut cx);
    assert!(cx.thread_roots.values.is_empty());
}

#[test]
fn out_of_order_destruction_is_detected_and_changes_nothing() {
    let mut cx = Context::new();
    let mut r1 = Rooted::new_unrooted::<Value>();
    let mut r2 = Rooted::new_unrooted::<Value>();
    r1.value = Value::Int(1);
    r2.value = Value::Int(2);
    r1.add_to_root_stack(&mut cx);
    r2.add_to_root_stack(&mut cx);

    let before = buckets_snapshot(&cx);

    // r1 is not the head of its bucket while r2 is still linked.
    let removed = r1.try_remove_from_root_stack(&mut cx);
    assert!(!removed);
    assert_eq!(r1.slot, Some(0));
    assert_eq!(buckets_snapshot(&cx), before);
    // The bucket head still points at linked storage: r2's slot.
    assert_eq!(cx.thread_roots.values.last().copied(), r2.slot);

    // In LIFO order both removals are accepted.
    assert!(r2.try_remove_from_root_stack(&mut cx));
    assert!(r1.try_remove_from_root_stack(&mut cx));
    assert!(cx.thread_roots.values.is_empty());
}

#[test]
fn registration_before_zone_assignment_falls_back_to_thread_list() {
    let mut cx = Context::new();

    // Bootstrap rooting: no zone yet, so the thread's list is used.
    let mut early = Rooted::new_unrooted::<ObjectRef>();
    early.value = Value::Object(1);
    early.add_to_root_stack(&mut cx);
    assert!(!early.in_zone);
    assert_eq!(cx.thread_roots.objects, vec![0]);
    assert!(cx.zone_roots.objects.is_empty());

    cx.assign_zone();

    // Once a zone is active, registrations go to the zone's list.
    let mut late = Rooted::new_unrooted::<ObjectRef>();
    late.value = Value::Object(2);
    late.add_to_root_stack(&mut cx);
    assert!(late.in_zone);
    assert_eq!(cx.thread_roots.objects, vec![0]);
    assert_eq!(cx.zone_roots.objects, vec![1]);

    // Each node unlinks from the list it registered with.
    late.remove_from_root_stack(&mut cx);
    assert!(cx.zone_roots.objects.is_empty());
    assert_eq!(cx.thread_roots.objects, vec![0]);
    early.remove_from_root_stack(&mut cx);
    assert!(cx.thread_roots.objects.is_empty());
}

#[test]
fn removal_reads_back_the_current_payload() {
    let mut cx = Context::new();
    let mut r = Rooted::new_unrooted::<Value>();
    r.value = Value::Int(5);
    r.add_to_root_stack(&mut cx);
    r.set(&mut cx, Value::Int(6));
    r.remove_from_root_stack(&mut cx);
    assert_eq!(r.value, Value::Int(6));
}
