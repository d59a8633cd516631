use mux::changeset::RangeSet;

#[test]
fn empty_set_contains_no_row() {
    let cs = RangeSet::new();
    assert!(cs.is_empty());
    assert!(!cs.contains(0));
    assert!(!cs.contains(-7));
    assert_eq!(cs.span_count(), 0);
}

#[test]
fn added_span_contains_exactly_its_rows() {
    let mut cs = RangeSet::new();
    cs.add_span(-2, 3);
    assert!(!cs.contains(-3));
    assert!(cs.contains(-2));
    assert!(cs.contains(0));
    assert!(cs.contains(2));
    assert!(!cs.contains(3));
    assert!(!cs.is_empty());
}

#[test]
fn overlapping_spans_union() {
    let mut cs = RangeSet::new();
    cs.add_span(0, 4);
    cs.add_span(2, 8);
    for r in 0..8 {
        assert!(cs.contains(r));
    }
    assert!(!cs.contains(8));
}

#[test]
fn empty_span_adds_nothing() {
    let mut cs = RangeSet::new();
    cs.add_span(5, 5);
    assert!(cs.is_empty());
}

#[test]
fn spans_are_inspectable() {
    let mut cs = RangeSet::new();
    cs.add_span(1, 2);
    cs.add_span(10, 12);
    assert_eq!(cs.span_count(), 2);
    assert_eq!(cs.span_at(0), (1, 2));
    assert_eq!(cs.span_at(1), (10, 12));
}
