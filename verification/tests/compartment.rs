use jsglue::compartment::JSAutoCompartment;
use jsglue::context::Context;

#[test]
fn entering_sets_the_compartment_and_saves_the_previous_one() {
    let mut cx = Context::new();
    assert_eq!(cx.compartment, None);
    let guard = JSAutoCompartment::enter(&mut cx, 7);
    assert_eq!(cx.compartment, Some(7));
    assert_eq!(guard.previous, None);
    guard.leave(&mut cx);
    assert_eq!(cx.compartment, None);
}

#[test]
fn nested_guards_released_in_reverse_order_restore_the_original() {
    let mut cx = Context::new();
    let outer = JSAutoCompartment::enter(&mut cx, 1);
    assert_eq!(cx.compartment, Some(1));

    let guard_x = JSAutoCompartment::enter(&mut cx, 10);
    assert_eq!(cx.compartment, Some(10));
    assert_eq!(guard_x.previous, Some(1));

    let guard_y = JSAutoCompartment::enter(&mut cx, 20);
    assert_eq!(cx.compartment, Some(20));
    assert_eq!(guard_y.previous, Some(10));

    guard_y.leave(&mut cx);
    assert_eq!(cx.compartment, Some(10));
    guard_x.leave(&mut cx);
    assert_eq!(cx.compartment, Some(1));
    outer.leave(&mut cx);
    assert_eq!(cx.compartment, None);
}

/// A guarded scope that may exit early: the guard is released on every exit
/// path, so the caller's compartment is restored either way.
fn guarded_scope(cx: &mut Context, target: u64, fail_early: bool) -> Result<u64, &'static str> {
    let guard = JSAutoCompartment::enter(cx, target);
    if fail_early {
        guard.leave(cx);
        return Err("scope unwound");
    }
    let computed = target + 1;
    guard.leave(cx);
    Ok(computed)
}

#[test]
fn early_exit_during_the_inner_scope_still_restores() {
    let mut cx = Context::new();
    let guard_x = JSAutoCompartment::enter(&mut cx, 10);

    // The inner scope enters Y and unwinds early; its guard still restores X.
    let r = guarded_scope(&mut cx, 20, true);
    assert!(r.is_err());
    assert_eq!(cx.compartment, Some(10));

    // A normal inner exit restores the same way.
    let r = guarded_scope(&mut cx, 20, false);
    assert_eq!(r, Ok(21));
    assert_eq!(cx.compartment, Some(10));

    guard_x.leave(&mut cx);
    assert_eq!(cx.compartment, None);
}
