use engula_apis::range_value::{
    range_bounds, Bound, BoundValue, RangeBound, RangeValue,
};
use engula_apis::union::{UnionList, UnionMap, UnionValue, ValueUnion};
use engula_apis::value::{to_typed_value, try_bounds_from_typed_value, try_bounds_from_value, Value};

#[test]
fn included_excluded_round_trip() {
    let r = RangeValue::from_bounds::<i64>(Bound::Included(5), Bound::Excluded(10));
    assert_eq!(
        r.try_into_bounds::<i64>(),
        Ok((Bound::Included(5), Bound::Excluded(10)))
    );
}

#[test]
fn unbounded_both_sides_round_trip() {
    let r = RangeValue::from_bounds::<i64>(Bound::Unbounded, Bound::Unbounded);
    assert_eq!(r.try_into_bounds::<i64>(), Ok((Bound::Unbounded, Bound::Unbounded)));
}

#[test]
fn mixed_bounds_round_trip() {
    let r = RangeValue::from_bounds::<i64>(Bound::Unbounded, Bound::Included(3));
    assert_eq!(r.try_into_bounds::<i64>(), Ok((Bound::Unbounded, Bound::Included(3))));
    let r = RangeValue::from_bounds::<i64>(Bound::Excluded(-1), Bound::Unbounded);
    assert_eq!(r.try_into_bounds::<i64>(), Ok((Bound::Excluded(-1), Bound::Unbounded)));
}

#[test]
fn text_bounds_round_trip() {
    let r = RangeValue::from_bounds::<String>(
        Bound::Included(String::from("a")),
        Bound::Excluded(String::from("z")),
    );
    assert_eq!(
        r.try_into_bounds::<String>(),
        Ok((
            Bound::Included(String::from("a")),
            Bound::Excluded(String::from("z"))
        ))
    );
}

#[test]
fn blob_bounds_round_trip() {
    let r = range_bounds::<Vec<u8>>(Bound::Included(vec![0u8]), Bound::Included(vec![255u8]));
    assert_eq!(
        r.try_into_bounds::<Vec<u8>>(),
        Ok((Bound::Included(vec![0u8]), Bound::Included(vec![255u8])))
    );
}

#[test]
fn unbounded_encodes_as_absent_payload() {
    let rb = RangeBound::from_bound::<i64>(Bound::Unbounded);
    assert_eq!(rb, RangeBound { value: None, included: false });
}

#[test]
fn absent_payload_decodes_unbounded_whatever_the_flag() {
    let rb = RangeBound { value: None, included: true };
    assert_eq!(rb.try_into_bound::<i64>(), Ok(Bound::Unbounded));
    let rb = RangeBound { value: None, included: false };
    assert_eq!(rb.try_into_bound::<i64>(), Ok(Bound::Unbounded));
}

#[test]
fn absent_sides_decode_unbounded() {
    let r = RangeValue::full();
    assert_eq!(r.try_into_bounds::<i64>(), Ok((Bound::Unbounded, Bound::Unbounded)));
    let r = RangeValue {
        start: Some(RangeBound::from_bound::<i64>(Bound::Included(1))),
        end: None,
    };
    assert_eq!(r.try_into_bounds::<i64>(), Ok((Bound::Included(1), Bound::Unbounded)));
}

#[test]
fn bound_payload_mismatch_returns_bound_unchanged() {
    let rb = RangeBound {
        value: Some(BoundValue::TextValue(String::from("x"))),
        included: true,
    };
    assert_eq!(rb.clone().try_into_bound::<i64>(), Err(rb));
}

#[test]
fn range_with_mismatched_side_reports_both_sides() {
    let bad = RangeBound {
        value: Some(BoundValue::TextValue(String::from("x"))),
        included: false,
    };
    let r = RangeValue {
        start: Some(RangeBound::from_bound::<i64>(Bound::Included(1))),
        end: Some(bad.clone()),
    };
    let e = r.try_into_bounds::<i64>().expect_err("one text side spoils an integer range");
    // the side that decoded is re-encoded, the failed side is kept as it was
    assert_eq!(e.start, Some(RangeBound::from_bound::<i64>(Bound::Included(1))));
    assert_eq!(e.end, Some(bad));
}

#[test]
fn range_with_absent_side_failing_other_reports_explicit_unbounded() {
    let bad = RangeBound {
        value: Some(BoundValue::BlobValue(vec![1u8])),
        included: true,
    };
    let r = RangeValue { start: Some(bad.clone()), end: None };
    let e = r.try_into_bounds::<i64>().expect_err("a blob side spoils an integer range");
    assert_eq!(e.start, Some(bad));
    assert_eq!(e.end, Some(RangeBound { value: None, included: false }));
}

#[test]
fn range_round_trip_through_value() {
    let r = RangeValue::from_bounds::<i64>(Bound::Included(0), Bound::Excluded(4));
    let v = Value::RangeValue(r);
    assert_eq!(
        try_bounds_from_value::<i64>(v),
        Ok((Bound::Included(0), Bound::Excluded(4)))
    );
}

#[test]
fn range_round_trip_through_typed_value() {
    let r = RangeValue::from_bounds::<i64>(Bound::Included(0), Bound::Unbounded);
    let t = to_typed_value(r);
    assert_eq!(
        try_bounds_from_typed_value::<i64>(t),
        Ok((Bound::Included(0), Bound::Unbounded))
    );
}

#[test]
fn non_range_value_rejected_as_bounds() {
    let v = Value::I64Value(1);
    assert_eq!(try_bounds_from_value::<i64>(v.clone()), Err(v));
}

#[test]
fn union_scalar_wrap_and_extract() {
    let v = UnionValue::from_i64(12);
    let w = ValueUnion::from_value(v);
    match w.into_option() {
        Some(inner) => match inner.try_into_i64() {
            Ok(x) => assert_eq!(x, 12),
            Err(_) => panic!("an integer value must extract as an integer"),
        },
        None => panic!("value was wrapped as present"),
    }
}

#[test]
fn union_mismatch_returns_value_unchanged() {
    let v = UnionValue::from_text(String::from("t"));
    match v.try_into_i64() {
        Ok(_) => panic!("text is not an integer"),
        Err(e) => match e {
            UnionValue::TextValue(s) => assert_eq!(s, "t"),
            _ => panic!("the original value must come back"),
        },
    }
}

#[test]
fn union_absent_round_trip() {
    let w = ValueUnion::absent();
    assert!(w.into_option().is_none());
    let w = ValueUnion::from_option(None);
    assert!(w.into_option().is_none());
}

#[test]
fn union_list_wraps_each_element() {
    let l = UnionList::from_values(vec![UnionValue::from_i64(1), UnionValue::from_i64(2)]);
    assert_eq!(l.values.len(), 2);
    match &l.values[0].value {
        Some(UnionValue::I64Value(x)) => assert_eq!(*x, 1),
        _ => panic!("first element must be the wrapped 1"),
    }
    match &l.values[1].value {
        Some(UnionValue::I64Value(x)) => assert_eq!(*x, 2),
        _ => panic!("second element must be the wrapped 2"),
    }
}

#[test]
fn union_map_keeps_parallel_order() {
    let m = UnionMap::from_entries(vec![
        (UnionValue::from_i64(1), UnionValue::from_text(String::from("a"))),
        (UnionValue::from_i64(2), UnionValue::from_text(String::from("b"))),
    ]);
    assert_eq!(m.keys.len(), 2);
    assert_eq!(m.values.len(), 2);
    match (&m.keys[1].value, &m.values[1].value) {
        (Some(UnionValue::I64Value(k)), Some(UnionValue::TextValue(v))) => {
            assert_eq!(*k, 2);
            assert_eq!(v, "b");
        }
        _ => panic!("second entry must stay in position"),
    }
}

#[test]
fn union_wraps_list_and_map_variants() {
    let l = UnionList::from_values(vec![UnionValue::from_i64(1)]);
    match UnionValue::from_list(l) {
        UnionValue::ListValue(inner) => assert_eq!(inner.values.len(), 1),
        _ => panic!("a list wraps as the list variant"),
    }
    let m = UnionMap::from_lists(vec![], vec![]);
    match UnionValue::from_map(m) {
        UnionValue::MapValue(inner) => {
            assert!(inner.keys.is_empty());
            assert!(inner.values.is_empty());
        }
        _ => panic!("a map wraps as the map variant"),
    }
}
