use makeit::generics::TagArg;
use makeit::typestate::{admits, find_slot, substitute};

fn texts(items: &[&str]) -> Vec<String> {
    items.iter().map(|s| s.to_string()).collect()
}

fn param(name: &str) -> TagArg {
    TagArg::Param(name.to_string())
}

fn marker(name: &str) -> TagArg {
    TagArg::Marker(name.to_string())
}

#[test]
fn marker_admits_only_itself() {
    let pattern = vec![marker("AUnset")];
    assert!(admits(&pattern, &texts(&["AUnset"])));
    assert!(!admits(&pattern, &texts(&["ASet"])));
}

#[test]
fn parameter_admits_anything() {
    let pattern = vec![marker("AUnset"), param("FieldB")];
    assert!(admits(&pattern, &texts(&["AUnset", "BUnset"])));
    assert!(admits(&pattern, &texts(&["AUnset", "BSet"])));
    assert!(admits(&pattern, &texts(&["AUnset", "Whatever"])));
    assert!(!admits(&pattern, &texts(&["ASet", "BUnset"])));
}

#[test]
fn pattern_and_instantiation_must_have_the_same_length() {
    let pattern = vec![param("FieldA"), param("FieldB")];
    assert!(!admits(&pattern, &texts(&["AUnset"])));
    assert!(!admits(&pattern, &texts(&["AUnset", "BUnset", "CUnset"])));
    assert!(admits(&vec![], &texts(&[])));
}

#[test]
fn repeated_parameter_stands_for_one_type() {
    let pattern = vec![param("P"), param("P")];
    assert!(admits(&pattern, &texts(&["X", "X"])));
    assert!(!admits(&pattern, &texts(&["X", "Y"])));
}

#[test]
fn find_slot_gives_the_first_occurrence() {
    let pattern = vec![marker("P"), param("Q"), param("P"), param("P")];
    assert_eq!(find_slot(&pattern, &"P".to_string()), 2);
    assert_eq!(find_slot(&pattern, &"Q".to_string()), 1);
    assert_eq!(find_slot(&pattern, &"R".to_string()), 4);
    assert_eq!(find_slot(&vec![], &"P".to_string()), 0);
}

#[test]
fn substitute_binds_parameters_by_name() {
    let receiver = vec![param("FieldA"), marker("BUnset"), param("FieldC")];
    let result = vec![param("FieldA"), marker("BSet"), param("FieldC")];
    let inst = texts(&["ASet", "BUnset", "CUnset"]);
    assert!(admits(&receiver, &inst));
    assert_eq!(substitute(&result, &receiver, &inst), texts(&["ASet", "BSet", "CUnset"]));
}

#[test]
fn substitute_follows_the_name_not_the_slot() {
    let receiver = vec![param("X"), param("Y")];
    let swapped = vec![param("Y"), param("X")];
    let inst = texts(&["One", "Two"]);
    assert_eq!(substitute(&swapped, &receiver, &inst), texts(&["Two", "One"]));
}

#[test]
fn substitute_of_markers_needs_no_binding() {
    let result = vec![marker("AUnset"), marker("BUnset")];
    assert_eq!(substitute(&result, &vec![], &texts(&[])), texts(&["AUnset", "BUnset"]));
}
