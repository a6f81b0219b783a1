use script_var::value::{DynVal, Span, VarName};

#[test]
fn dummy_span_is_all_max() {
    assert_eq!(Span::dummy(), Span(usize::MAX, usize::MAX, usize::MAX));
}

#[test]
fn value_from_string_has_the_text_and_no_place() {
    let value = DynVal::from_string(String::from("12"));
    assert_eq!(value.0, "12");
    assert_eq!(value.1, Span::dummy());
}

#[test]
fn values_are_equal_by_their_text() {
    let here = DynVal(String::from("on"), Span(1, 3, 0));
    let there = DynVal(String::from("on"), Span(7, 9, 2));
    let other = DynVal(String::from("off"), Span(1, 3, 0));
    assert!(here == there);
    assert!(here != other);
    assert!(DynVal::from_string(String::new()) == DynVal(String::new(), Span(0, 0, 0)));
}

#[test]
fn a_cloned_value_keeps_text_and_span() {
    let value = DynVal(String::from("text"), Span(4, 8, 1));
    let copy = value.clone();
    assert_eq!(copy.0, "text");
    assert_eq!(copy.1, Span(4, 8, 1));
}

#[test]
fn a_cloned_name_keeps_its_text() {
    let name = VarName(String::from("volume"));
    assert_eq!(name.clone().0, "volume");
}
