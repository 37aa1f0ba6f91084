use jsglue::context::Context;
use jsglue::handles::Handle;
use jsglue::handles::HandleLocation;
use jsglue::handles::HandleObject;
use jsglue::handles::HandleValue;
use jsglue::handles::HandleValueArray;
use jsglue::handles::MutableHandle;
use jsglue::roots::Rooted;
use jsglue::values::ObjectRef;
use jsglue::values::Value;

#[test]
fn sentinel_handles_observe_fixed_values() {
    let cx = Context::new();
    assert_eq!(HandleValue::undefined().get(&cx), Value::Undefined);
    assert_eq!(HandleValue::null().get(&cx), Value::Null);
    assert_eq!(
        HandleObject::null().loc,
        HandleLocation::Immediate(Value::Null)
    );
}

#[test]
fn handle_observes_rooted_value_after_relocation() {
    let mut cx = Context::new();
    let mut r = Rooted::new_unrooted::<ObjectRef>();
    r.value = Value::Object(100);
    r.add_to_root_stack(&mut cx);

    let h = r.handle();
    assert_eq!(h.get(&cx), Value::Object(100));

    // The collector relocates the referent and rewrites the slot in place;
    // the same handle reflects the move, not a stale copy.
    let slot = r.slot.unwrap();
    cx.relocate(slot, Value::Object(200));
    assert_eq!(h.get(&cx), Value::Object(200));
    assert_eq!(r.get(&cx), Value::Object(200));

    // Relocation is collector bookkeeping: no post-barrier fires.
    assert!(cx.barrier_log.is_empty());

    r.remove_from_root_stack(&mut cx);
    assert_eq!(r.value, Value::Object(200));
}

#[test]
fn mutable_handle_and_its_read_view_share_the_slot() {
    let mut cx = Context::new();
    let s = cx.alloc_stack_slot(Value::Int(1));
    let m = MutableHandle::from_marked_location(s);
    let h = m.handle();
    assert_eq!(h.loc, HandleLocation::Slot(s));
    assert_eq!(m.get(&cx), Value::Int(1));
    m.set(&mut cx, Value::Int(2));
    assert_eq!(h.get(&cx), Value::Int(2));
}

#[test]
fn set_on_heap_slot_fires_the_barrier_exactly_once() {
    let mut cx = Context::new();
    let s = cx.alloc_heap_slot(Value::Null);
    let m = MutableHandle::from_marked_location(s);

    m.set(&mut cx, Value::Object(5));
    assert_eq!(cx.barrier_log.len(), 1);
    assert_eq!(cx.barrier_log[0].slot, s);
    assert_eq!(cx.barrier_log[0].old_value, Value::Null);
    assert_eq!(cx.barrier_log[0].new_value, Value::Object(5));

    m.set(&mut cx, Value::Object(6));
    assert_eq!(cx.barrier_log.len(), 2);
    assert_eq!(cx.barrier_log[1].old_value, Value::Object(5));
    assert_eq!(cx.barrier_log[1].new_value, Value::Object(6));
}

#[test]
fn set_on_stack_slot_fires_no_barrier() {
    let mut cx = Context::new();
    let s = cx.alloc_stack_slot(Value::Null);
    let m = MutableHandle::from_marked_location(s);
    m.set(&mut cx, Value::Int(9));
    assert!(cx.barrier_log.is_empty());
    assert_eq!(m.get(&cx), Value::Int(9));
}

#[test]
fn rooted_set_is_barrier_free() {
    let mut cx = Context::new();
    let mut r = Rooted::new_unrooted::<Value>();
    r.add_to_root_stack(&mut cx);
    let m = r.mutable_handle();
    m.set(&mut cx, Value::Boolean(true));
    assert!(cx.barrier_log.is_empty());
    assert_eq!(r.get(&cx), Value::Boolean(true));
    r.remove_from_root_stack(&mut cx);
}

#[test]
fn from_marked_location_points_at_the_given_slot() {
    let mut cx = Context::new();
    let s = cx.alloc_stack_slot(Value::Int(42));
    let h = Handle::from_marked_location(s);
    assert_eq!(h.loc, HandleLocation::Slot(s));
    assert_eq!(h.get(&cx), Value::Int(42));
}

#[test]
fn handle_value_array_copies_the_rooted_run() {
    let values = vec![Value::Int(1), Value::Null, Value::Object(3)];
    let a = HandleValueArray::from_rooted_slice(&values);
    assert_eq!(a.elements, values);

    let empty: Vec<Value> = Vec::new();
    let b = HandleValueArray::from_rooted_slice(&empty);
    assert!(b.elements.is_empty());
}
