use unextendr::tagged::{decode, encode, tag_failure};
use unextendr::{
    times_two_int_inner, to_upper_inner, wrapper, BoundaryError, CallOutcome, ElementType,
    HostVector, IntegerView, RealView, Settlement, TextView,
};

fn text(items: &[&str]) -> HostVector {
    HostVector::Text(items.iter().map(|s| s.as_bytes().to_vec()).collect())
}

#[test]
fn to_upper_maps_each_element() {
    let out = to_upper_inner(&text(&["abc", "Déf"])).unwrap();
    assert_eq!(out, vec!["ABC".to_string(), "DÉF".to_string()]);
}

#[test]
fn to_upper_changes_length_of_an_element_where_unicode_does() {
    let out = to_upper_inner(&text(&["straße", ""])).unwrap();
    assert_eq!(out, vec!["STRASSE".to_string(), String::new()]);
}

#[test]
fn to_upper_of_empty_vector_is_empty() {
    let out = to_upper_inner(&HostVector::Text(vec![])).unwrap();
    assert!(out.is_empty());
}

#[test]
fn to_upper_rejects_integer_vector() {
    let r = to_upper_inner(&HostVector::Integer(vec![1, 2]));
    assert_eq!(
        r,
        Err(BoundaryError::TypeMismatch { expected: ElementType::Text, actual: ElementType::Integer })
    );
}

#[test]
fn to_upper_rejects_malformed_text_at_its_first_bad_element() {
    let x = HostVector::Text(vec![b"ok".to_vec(), vec![0xff, 0x41], vec![0xc3]]);
    assert_eq!(to_upper_inner(&x), Err(BoundaryError::MalformedText { index: 1 }));
}

#[test]
fn times_two_doubles_with_wraparound() {
    let x = HostVector::Integer(vec![i32::MAX, 3, -5, i32::MIN, 0, 1 << 30]);
    let out = times_two_int_inner(&x).unwrap();
    assert_eq!(out, vec![-2, 6, -10, 0, 0, i32::MIN]);
}

#[test]
fn times_two_of_empty_vector_is_empty() {
    let out = times_two_int_inner(&HostVector::Integer(vec![])).unwrap();
    assert!(out.is_empty());
}

#[test]
fn times_two_rejects_text_and_names_both_tags() {
    let r = times_two_int_inner(&text(&["a"]));
    let e = r.unwrap_err();
    assert_eq!(
        e,
        BoundaryError::TypeMismatch { expected: ElementType::Integer, actual: ElementType::Text }
    );
    let m = e.message();
    assert_eq!(m, "expected a vector of type integer, got text");
    assert!(m.contains("integer") && m.contains("text"));
}

#[test]
fn times_two_rejects_real_vector() {
    let r = times_two_int_inner(&HostVector::Real(vec![1.5f64.to_bits()]));
    assert_eq!(
        r,
        Err(BoundaryError::TypeMismatch { expected: ElementType::Integer, actual: ElementType::Real })
    );
}

#[test]
fn repeated_calls_give_identical_output() {
    let x = text(&["abc", "Déf"]);
    assert_eq!(to_upper_inner(&x), to_upper_inner(&x));
    let y = HostVector::Integer(vec![7, i32::MAX]);
    assert_eq!(times_two_int_inner(&y), times_two_int_inner(&y));
}

#[test]
fn integer_view_exposes_elements() {
    let x = HostVector::Integer(vec![4, 5, 6]);
    let v = IntegerView::new(&x).unwrap();
    assert_eq!(v.len(), 3);
    assert_eq!(v.element_at(1), 5);
    assert_eq!(v.to_vec(), vec![4, 5, 6]);
    assert_eq!(v.to_vec(), v.to_vec());
    assert!(IntegerView::new(&text(&[])).is_err());
}

#[test]
fn real_view_exposes_bit_patterns() {
    let bits = vec![1.5f64.to_bits(), f64::NAN.to_bits(), f64::INFINITY.to_bits()];
    let x = HostVector::Real(bits.clone());
    let v = RealView::new(&x).unwrap();
    assert_eq!(v.len(), 3);
    assert_eq!(f64::from_bits(v.element_bits_at(0)), 1.5);
    assert!(f64::from_bits(v.element_bits_at(1)).is_nan());
    assert_eq!(v.to_vec(), bits);
    assert_eq!(
        RealView::new(&HostVector::Integer(vec![])).err(),
        Some(BoundaryError::TypeMismatch { expected: ElementType::Real, actual: ElementType::Integer })
    );
}

#[test]
fn text_view_decodes_elements() {
    let x = text(&["héllo", "x"]);
    let v = TextView::new(&x).unwrap();
    assert_eq!(v.len(), 2);
    assert_eq!(v.element_at(0), "héllo");
    assert_eq!(v.to_vec(), vec!["héllo".to_string(), "x".to_string()]);
    assert_eq!(
        TextView::new(&HostVector::Real(vec![])).err(),
        Some(BoundaryError::TypeMismatch { expected: ElementType::Text, actual: ElementType::Real })
    );
}

#[test]
fn element_type_names() {
    assert_eq!(ElementType::Integer.name(), "integer");
    assert_eq!(ElementType::Real.name(), "real");
    assert_eq!(ElementType::Text.name(), "text");
    assert_eq!(HostVector::Real(vec![0, 1]).tag(), ElementType::Real);
    assert_eq!(HostVector::Real(vec![0, 1]).len(), 2);
}

#[test]
fn malformed_text_message() {
    assert_eq!(
        BoundaryError::MalformedText { index: 3 }.message(),
        "a text element is not valid UTF-8"
    );
}

#[test]
fn wrapper_passes_success_through() {
    assert_eq!(wrapper(CallOutcome::Returned(0x1000)), Settlement::Success(0x1000));
}

#[test]
fn wrapper_renders_recoverable_failure() {
    let e = BoundaryError::TypeMismatch { expected: ElementType::Integer, actual: ElementType::Text };
    assert_eq!(
        wrapper(CallOutcome::Failed(e)),
        Settlement::Failure("expected a vector of type integer, got text".to_string())
    );
}

#[test]
fn wrapper_renders_defect_with_nonempty_message() {
    assert_eq!(
        wrapper(CallOutcome::Panicked("index out of bounds".to_string())),
        Settlement::Failure("native code panicked: index out of bounds".to_string())
    );
    match wrapper(CallOutcome::Panicked(String::new())) {
        Settlement::Failure(m) => assert!(!m.is_empty()),
        Settlement::Success(_) => panic!("a defect settled as a success"),
    }
}

#[test]
fn tagged_word_round_trip() {
    assert_eq!(encode(Ok(0x1000)), 0x1000);
    assert_eq!(encode(Err(0x1000)), 0x1001);
    assert_eq!(tag_failure(0x2468), 0x2469);
    assert_eq!(decode(0x1001), Err(0x1000));
    assert_eq!(decode(0x1000), Ok(0x1000));
    assert_eq!(decode(encode(Err(usize::MAX - 1))), Err(usize::MAX - 1));
}
