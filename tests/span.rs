use parserc::span::Span;

#[test]
fn test_between() {
    assert_eq!(Span::Range(0, 10).between(&Span::Range(12, 20)), Span::Range(10, 12));

    assert_eq!(Span::Range(12, 20).between(&Span::Range(0, 10)), Span::Range(10, 12));

    assert_eq!(Span::Range(12, 20).between(&Span::Range(0, 14)), Span::Empty);

    assert_eq!(Span::RangeFrom(15).between(&Span::Range(0, 14)), Span::Range(14, 15));

    assert_eq!(Span::Range(0, 14).between(&Span::RangeFrom(15)), Span::Range(14, 15));

    assert_eq!(Span::RangeFrom(15).between(&Span::RangeTo(14)), Span::Range(14, 15));

    assert_eq!(Span::RangeFrom(14).between(&Span::RangeTo(15)), Span::Empty);

    assert_eq!(Span::RangeFrom(14).between(&Span::RangeFrom(15)), Span::Empty);

    assert_eq!(Span::RangeTo(14).between(&Span::RangeTo(18)), Span::Empty);

    assert_eq!(Span::RangeTo(18).between(&Span::RangeTo(14)), Span::Empty);
}

#[test]
fn test_union() {
    // A span bounded above united with one bounded below covers everything.
    assert_eq!(Span::RangeTo(14).union(&Span::RangeFrom(18)), Span::RangeFull);

    assert_eq!(Span::Range(1, 14).union(&Span::Range(13, 18)), Span::Range(1, 18));

    assert_eq!(Span::Range(1, 14).union(&Span::Range(2, 14)), Span::Range(1, 14));

    assert_eq!(Span::Range(4, 14).union(&Span::Range(3, 4)), Span::Range(3, 14));

    assert_eq!(Span::Range(4, 14).union(&Span::Range(1, 5)), Span::Range(1, 14));

    assert_eq!(Span::RangeTo(18).union(&Span::RangeTo(14)), Span::RangeTo(18));
}

#[test]
fn union_is_commutative_on_mixed_kinds() {
    let spans = [
        Span::Empty,
        Span::Range(3, 9),
        Span::Range(5, 5),
        Span::RangeFrom(4),
        Span::RangeTo(7),
        Span::RangeFull,
    ];
    for a in spans.iter() {
        for b in spans.iter() {
            assert_eq!(a.union(b), b.union(a));
        }
        assert_eq!(a.union(a), *a);
    }
    assert_eq!(Span::Range(3, 9).union(&Span::RangeFrom(4)), Span::RangeFrom(3));
    assert_eq!(Span::RangeFrom(4).union(&Span::Range(3, 9)), Span::RangeFrom(3));
    assert_eq!(Span::Range(3, 9).union(&Span::RangeTo(7)), Span::RangeTo(9));
    assert_eq!(Span::Empty.union(&Span::RangeFull), Span::RangeFull);
}

#[test]
fn between_touching_and_overlapping_spans_is_empty() {
    assert_eq!(Span::Range(0, 5).between(&Span::Range(5, 9)), Span::Empty);
    assert_eq!(Span::Range(0, 5).between(&Span::Range(3, 9)), Span::Empty);
    assert_eq!(Span::RangeTo(5).between(&Span::RangeFrom(5)), Span::Empty);
    assert_eq!(Span::RangeFull.between(&Span::Range(0, 1)), Span::Empty);
    assert_eq!(Span::Empty.between(&Span::Range(7, 8)), Span::Empty);
    assert_eq!(Span::Range(0, 5).between(&Span::Range(8, 9)), Span::Range(5, 8));
    assert_eq!(Span::Range(8, 9).between(&Span::Range(0, 5)), Span::Range(5, 8));
}
