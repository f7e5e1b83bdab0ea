use vector::{BorrowedVector, Info, OwnedVector, SpanVector, Vector, VectorError};

#[test]
fn scenario_offset_container_from_five() {
    let v = OwnedVector::from_vec(vec![5i64, 6, 7], 5, 7).unwrap();
    assert_eq!(v.start(), 5);
    assert_eq!(v.end(), 7);
    assert_eq!(v.get(5), Ok(5));
    assert_eq!(v.get(6), Ok(6));
    assert_eq!(v.get(7), Ok(7));
    assert_eq!(v.get(4), Err(VectorError::Indexing { index: 4 }));
}

#[test]
fn owned_get_below_and_above_span_fails() {
    let v = OwnedVector::from_vec(vec![1u8, 2, 3], 10, 12).unwrap();
    assert_eq!(v.get(9), Err(VectorError::Indexing { index: 9 }));
    assert_eq!(v.get(0), Err(VectorError::Indexing { index: 0 }));
    assert_eq!(v.get(13), Err(VectorError::Indexing { index: 13 }));
    assert_eq!(v.get(usize::MAX), Err(VectorError::Indexing { index: usize::MAX }));
}

#[test]
fn owned_get_absolute_ignores_offset() {
    let v = OwnedVector::from_vec(vec![5i64, 6, 7], 5, 7).unwrap();
    assert_eq!(v.get_absolute(0), Ok(5));
    assert_eq!(v.get_absolute(2), Ok(7));
    assert_eq!(v.get_absolute(3), Err(VectorError::Indexing { index: 3 }));
}

#[test]
fn owned_set_then_get_round_trips() {
    let mut v = OwnedVector::from_vec(vec![5i64, 6, 7], 5, 7).unwrap();
    v.set(6, 60);
    assert_eq!(v.get(6), Ok(60));
    assert_eq!(v.get(5), Ok(5));
    assert_eq!(v.get(7), Ok(7));
}

#[test]
fn owned_get_mut_writes_in_span() {
    let mut v = OwnedVector::from_vec(vec![5i64, 6, 7], 5, 7).unwrap();
    if let Some(slot) = v.get_mut(6) {
        *slot = 66;
    } else {
        panic!("index 6 lies inside the span");
    }
    assert_eq!(v.get(6), Ok(66));
    assert_eq!(v.get(5), Ok(5));
    assert!(v.get_mut(4).is_none());
    assert!(v.get_mut(8).is_none());
    assert_eq!(v.iter(), vec![5, 66, 7]);
}

#[test]
fn owned_iter_returns_storage_order() {
    let v = OwnedVector::from_vec(vec![5i64, 6, 7], 5, 7).unwrap();
    assert_eq!(v.iter(), vec![5, 6, 7]);
}

#[test]
fn borrowed_get_matches_owned_reads() {
    let storage = [5i64, 6, 7];
    let b = BorrowedVector::try_new(&storage, 5, 7).unwrap();
    assert_eq!(b.get(5), Ok(5));
    assert_eq!(b.get(7), Ok(7));
    assert_eq!(b.get(4), Err(VectorError::Indexing { index: 4 }));
    assert_eq!(b.get(8), Err(VectorError::Indexing { index: 8 }));
    assert_eq!(b.get_absolute(1), Ok(6));
    assert_eq!(b.get_absolute(3), Err(VectorError::Indexing { index: 3 }));
    assert_eq!(b.iter(), vec![5, 6, 7]);
}

#[test]
fn overlay_index_substitutes_fallbacks() {
    let info = Info::new(2, 4, -1i64, -2i64).unwrap();
    let v = Vector::from_data(vec![10i64, 20, 30], info).unwrap();
    assert_eq!(v.index(1), -1);
    assert_eq!(v.index(0), -1);
    assert_eq!(v.index(2), 10);
    assert_eq!(v.index(3), 20);
    assert_eq!(v.index(4), 30);
    assert_eq!(v.index(5), -2);
    assert_eq!(v.index(usize::MAX), -2);
}

#[test]
fn overlay_set_then_index_round_trips() {
    let info = Info::new_single_fallback(3, 5, 0i64).unwrap();
    let mut v = Vector::with_value(1i64, info);
    v.set(4, 44);
    assert_eq!(v.index(4), 44);
    assert_eq!(v.index(3), 1);
    assert_eq!(v.index(5), 1);
}

#[test]
fn overlay_get_mut_writes_in_span() {
    let info = Info::new_single_fallback(3, 5, 0i64).unwrap();
    let mut v = Vector::with_value(1i64, info);
    if let Some(slot) = v.get_mut(4) {
        *slot = 9;
    } else {
        panic!("index 4 lies inside the span");
    }
    assert_eq!(v.index(4), 9);
    assert!(v.get_mut(2).is_none());
    assert!(v.get_mut(6).is_none());
    assert_eq!(v.index(3), 1);
}

#[test]
fn overlay_getters_expose_info() {
    let info = Info::new(2, 4, -1i64, -2i64).unwrap();
    let v = Vector::from_data(vec![10i64, 20, 30], info).unwrap();
    assert_eq!(v.start(), 2);
    assert_eq!(v.end(), 4);
    assert_eq!(v.len(), 3);
    assert_eq!(v.info().start(), 2);
    assert_eq!(v.info().fallback_end(), -2);
    assert_eq!(v.iter(), vec![10, 20, 30]);
}
