use vrsc_rpc::wire::defaults_compatible;
use vrsc_rpc::wire::empty_arr;
use vrsc_rpc::wire::handle_defaults;
use vrsc_rpc::wire::null;
use vrsc_rpc::wire::WireValue;

fn json(s: &str) -> WireValue {
    WireValue::Json(s.to_string())
}

#[test]
fn trailing_unset_optionals_are_dropped() {
    // args [A, unset, unset] with defaults [D1, D2] -> [A]
    let args = vec![json("A"), WireValue::Unset, WireValue::Unset];
    let defaults = vec![json("D1"), json("D2")];
    assert!(defaults_compatible(&args, &defaults));
    let r = handle_defaults(&args, &defaults);
    assert_eq!(r, vec![json("A")]);
}

#[test]
fn omitted_middle_optional_backfilled() {
    // args [A, unset, C] with defaults [D1, D2] -> [A, D1, C]
    let args = vec![json("A"), WireValue::Unset, json("C")];
    let defaults = vec![json("D1"), json("D2")];
    assert!(defaults_compatible(&args, &defaults));
    let r = handle_defaults(&args, &defaults);
    assert_eq!(r, vec![json("A"), json("D1"), json("C")]);
}

#[test]
fn fully_supplied_arguments_unchanged() {
    // args [A, B, C] with defaults [D1, D2] -> [A, B, C]
    let args = vec![json("A"), json("B"), json("C")];
    let defaults = vec![json("D1"), json("D2")];
    assert!(defaults_compatible(&args, &defaults));
    let r = handle_defaults(&args, &defaults);
    assert_eq!(r, vec![json("A"), json("B"), json("C")]);
}

#[test]
fn no_defaults_keeps_required_arguments() {
    let args = vec![json("A"), json("B")];
    let defaults = vec![];
    let r = handle_defaults(&args, &defaults);
    assert_eq!(r, vec![json("A"), json("B")]);
}

#[test]
fn all_optional_and_none_supplied_yields_empty() {
    let args = vec![WireValue::Unset, WireValue::Unset];
    let defaults = vec![json("D1"), json("D2")];
    let r = handle_defaults(&args, &defaults);
    assert_eq!(r, vec![]);
}

#[test]
fn unset_default_is_fine_when_position_trails() {
    // the unset default is never needed: the unset argument trails the last
    // supplied one and is simply dropped
    let args = vec![json("A"), json("B"), WireValue::Unset];
    let defaults = vec![json("D1"), WireValue::Unset];
    assert!(defaults_compatible(&args, &defaults));
    let r = handle_defaults(&args, &defaults);
    assert_eq!(r, vec![json("A"), json("B")]);
}

#[test]
fn missing_default_before_supplied_optional_is_a_caller_bug() {
    // an unset optional before a supplied one, with an unset default, cannot
    // be resolved into a positional call
    let args = vec![json("A"), WireValue::Unset, json("C")];
    let defaults = vec![WireValue::Unset, json("D2")];
    assert!(!defaults_compatible(&args, &defaults));
}

#[test]
fn more_defaults_than_arguments_is_a_caller_bug() {
    let args = vec![json("A")];
    let defaults = vec![json("D1"), json("D2")];
    assert!(!defaults_compatible(&args, &defaults));
}

#[test]
fn wire_value_helpers() {
    assert_eq!(null(), WireValue::Unset);
    assert!(null().is_unset());
    assert_eq!(empty_arr(), json("[]"));
    assert!(!empty_arr().is_unset());
    let v = json("42");
    assert_eq!(v.duplicate(), v);
}
