use vector::{BorrowedVector, OwnedVector, SpanVector, VectorError};

#[test]
fn get_range_half_open_excludes_upper_bound() {
    let v = OwnedVector::from_vec(vec![5i64, 6, 7, 8], 5, 8).unwrap();
    assert_eq!(v.get_range(5, 7).unwrap(), &[5, 6]);
    assert_eq!(v.get_range(6, 8).unwrap(), &[6, 7]);
}

#[test]
fn get_range_allows_one_past_end_for_full_tail() {
    let v = OwnedVector::from_vec(vec![5i64, 6, 7, 8], 5, 8).unwrap();
    assert_eq!(v.get_range(5, 9).unwrap(), &[5, 6, 7, 8]);
    assert_eq!(v.get_range(8, 9).unwrap(), &[8]);
}

#[test]
fn get_range_expresses_empty_trailing_range() {
    let v = OwnedVector::from_vec(vec![5i64, 6, 7, 8], 5, 8).unwrap();
    let empty = v.get_range(9, 9).unwrap();
    assert!(empty.is_empty());
    let also_empty = v.get_range(6, 6).unwrap();
    assert!(also_empty.is_empty());
}

#[test]
fn get_range_violations_name_container_bounds() {
    let v = OwnedVector::from_vec(vec![5i64, 6, 7, 8], 5, 8).unwrap();
    assert_eq!(v.get_range(4, 7).unwrap_err(), VectorError::Indexing { index: 5 });
    assert_eq!(v.get_range(5, 10).unwrap_err(), VectorError::Indexing { index: 8 });
    assert_eq!(v.get_range(7, 6).unwrap_err(), VectorError::Order { start: 7, end: 6 });
}

#[test]
fn get_range_inclusive_includes_upper_bound() {
    let v = OwnedVector::from_vec(vec![5i64, 6, 7, 8], 5, 8).unwrap();
    assert_eq!(v.get_range_inclusive(5, 7).unwrap(), &[5, 6, 7]);
    assert_eq!(v.get_range_inclusive(8, 8).unwrap(), &[8]);
}

#[test]
fn get_range_inclusive_rejects_one_past_end() {
    let v = OwnedVector::from_vec(vec![5i64, 6, 7, 8], 5, 8).unwrap();
    assert_eq!(v.get_range_inclusive(5, 9).unwrap_err(), VectorError::Indexing { index: 8 });
    assert_eq!(v.get_range_inclusive(4, 8).unwrap_err(), VectorError::Indexing { index: 5 });
    assert_eq!(v.get_range_inclusive(7, 6).unwrap_err(), VectorError::Order { start: 7, end: 6 });
}

#[test]
fn borrowed_ranges_validate_against_own_span() {
    let storage = [5i64, 6, 7, 8];
    let b = BorrowedVector::try_new(&storage, 5, 8).unwrap();
    assert_eq!(b.get_range(6, 8).unwrap(), &[6, 7]);
    assert_eq!(b.get_range_inclusive(6, 8).unwrap(), &[6, 7, 8]);
    assert_eq!(b.get_range(4, 6).unwrap_err(), VectorError::Indexing { index: 5 });
    assert_eq!(b.get_range_inclusive(6, 9).unwrap_err(), VectorError::Indexing { index: 8 });
}

#[test]
fn to_borrowed_wraps_whole_storage() {
    let v = OwnedVector::from_vec(vec![5i64, 6, 7], 5, 7).unwrap();
    let b = v.to_borrowed().unwrap();
    assert_eq!(b.start(), 5);
    assert_eq!(b.end(), 7);
    assert_eq!(b.get(6), Ok(6));
    assert_eq!(b.iter(), v.iter());
}

#[test]
fn as_contiguous_view_exposes_storage_order() {
    let v = OwnedVector::from_vec(vec![5i64, 6, 7], 5, 7).unwrap();
    assert_eq!(v.as_contiguous_view(), &[5, 6, 7]);
    let storage = [1u8, 2];
    let b = BorrowedVector::try_new(&storage, 0, 1).unwrap();
    assert_eq!(b.as_contiguous_view(), &[1, 2]);
}
