use jsglue::values::CompartmentOptions;
use jsglue::values::JSNativeWrapper;
use jsglue::values::Value;
use jsglue::values::jsid;

#[test]
fn default_value_is_undefined() {
    assert_eq!(Value::default(), Value::Undefined);
}

#[test]
fn default_id_is_the_void_id() {
    assert_eq!(jsid::default().bits, 0);
}

#[test]
fn default_compartment_options_clear_every_flag() {
    let o = CompartmentOptions::default();
    assert!(!o.invisible_to_debugger);
    assert!(!o.mergeable);
    assert!(!o.preserve_jit_code);
}

#[test]
fn is_zeroed_requires_both_fields_unset() {
    let zeroed = JSNativeWrapper { op: None, info: None };
    assert!(zeroed.is_zeroed());

    let with_op = JSNativeWrapper { op: Some(1), info: None };
    assert!(!with_op.is_zeroed());

    let with_info = JSNativeWrapper { op: None, info: Some(2) };
    assert!(!with_info.is_zeroed());

    let full = JSNativeWrapper { op: Some(1), info: Some(2) };
    assert!(!full.is_zeroed());
}
