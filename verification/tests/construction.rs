use vector::{BorrowedVector, Info, InfoError, OwnedVector, SpanVector, Vector, VectorError};

#[test]
fn owned_from_vec_valid_span() {
    let v = OwnedVector::from_vec(vec![5i64, 6, 7], 5, 7).unwrap();
    assert_eq!(v.start(), 5);
    assert_eq!(v.end(), 7);
    assert_eq!(v.len(), 3);
}

#[test]
fn owned_from_vec_single_element_span() {
    let v = OwnedVector::from_vec(vec![42u32], 9, 9).unwrap();
    assert_eq!(v.start(), 9);
    assert_eq!(v.end(), 9);
    assert_eq!(v.len(), 1);
    assert_eq!(v.get(9), Ok(42));
}

#[test]
fn owned_from_vec_reversed_span_is_order_error() {
    let r = OwnedVector::from_vec(vec![1i64, 2], 7, 5);
    assert_eq!(r.unwrap_err(), VectorError::Order { start: 7, end: 5 });
}

#[test]
fn owned_from_vec_wrong_length_is_length_error() {
    let r = OwnedVector::from_vec(vec![1i64, 2], 5, 7);
    assert_eq!(r.unwrap_err(), VectorError::Length { len: 2, start: 5, end: 7 });
}

#[test]
fn owned_from_num_fills_span() {
    let v = OwnedVector::from_num(4i64, 2, 5).unwrap();
    assert_eq!(v.len(), 4);
    assert_eq!(v.get(2), Ok(4));
    assert_eq!(v.get(5), Ok(4));
}

#[test]
fn owned_from_num_reversed_span_is_order_error() {
    let r = OwnedVector::from_num(4i64, 5, 2);
    assert_eq!(r.unwrap_err(), VectorError::Order { start: 5, end: 2 });
}

#[test]
fn owned_new_fills_span_with_default() {
    let v: OwnedVector<i64> = OwnedVector::new(3, 5).unwrap();
    assert_eq!(v.len(), 3);
    assert_eq!(v.get(3), Ok(0));
    assert_eq!(v.get(5), Ok(0));
}

#[test]
fn owned_new_reversed_span_is_order_error() {
    let r: Result<OwnedVector<u8>, VectorError> = OwnedVector::new(5, 3);
    assert_eq!(r.unwrap_err(), VectorError::Order { start: 5, end: 3 });
}

#[test]
fn borrowed_try_new_valid() {
    let storage = [1u16, 2, 3, 4];
    let b = BorrowedVector::try_new(&storage, 10, 13).unwrap();
    assert_eq!(b.start(), 10);
    assert_eq!(b.end(), 13);
    assert_eq!(b.len(), 4);
}

#[test]
fn borrowed_try_new_reversed_span_is_order_error() {
    let storage = [1u16, 2];
    let r = BorrowedVector::try_new(&storage, 3, 1);
    assert_eq!(r.unwrap_err(), VectorError::Order { start: 3, end: 1 });
}

#[test]
fn borrowed_try_new_wrong_length_is_length_error() {
    let storage = [1u16, 2];
    let r = BorrowedVector::try_new(&storage, 0, 3);
    assert_eq!(r.unwrap_err(), VectorError::Length { len: 2, start: 0, end: 3 });
}

#[test]
fn borrowed_new_valid() {
    let storage = [9i64, 8];
    let b = BorrowedVector::new(&storage, 1, 2);
    assert_eq!(b.get(1), Ok(9));
    assert_eq!(b.get(2), Ok(8));
}

#[test]
fn info_new_keeps_all_fields() {
    let info = Info::new(2, 6, -1i64, -2i64).unwrap();
    assert_eq!(info.start(), 2);
    assert_eq!(info.end(), 6);
    assert_eq!(info.len(), 5);
    assert_eq!(info.fallback_start(), -1);
    assert_eq!(info.fallback_end(), -2);
}

#[test]
fn info_new_reversed_span_is_invalid_interval() {
    let r = Info::new(6, 2, 0i64, 0i64);
    assert_eq!(r.unwrap_err(), InfoError::InvalidInterval { start: 6, end: 2 });
}

#[test]
fn info_new_single_fallback_duplicates_value() {
    let info = Info::new_single_fallback(0, 3, 7i64).unwrap();
    assert_eq!(info.fallback_start(), 7);
    assert_eq!(info.fallback_end(), 7);
    assert_eq!(info.len(), 4);
}

#[test]
fn info_check_interval_accepts_and_rejects() {
    assert!(InfoError::check_interval(1, 1).is_ok());
    assert!(InfoError::check_interval(1, 9).is_ok());
    assert_eq!(
        InfoError::check_interval(9, 1).unwrap_err(),
        InfoError::InvalidInterval { start: 9, end: 1 },
    );
}

#[test]
fn overlay_with_value_fills_span() {
    let info = Info::new_single_fallback(4, 6, 0i64).unwrap();
    let v = Vector::with_value(3i64, info);
    assert_eq!(v.len(), 3);
    assert_eq!(v.index(4), 3);
    assert_eq!(v.index(5), 3);
    assert_eq!(v.index(6), 3);
}

#[test]
fn overlay_with_capacity_fills_span_with_default() {
    let info = Info::new_single_fallback(0, 2, 7i64).unwrap();
    let v: Vector<i64> = Vector::with_capacity(info);
    assert_eq!(v.start(), 0);
    assert_eq!(v.end(), 2);
    assert_eq!(v.len(), 3);
    assert_eq!(v.iter(), vec![0, 0, 0]);
    assert_eq!(v.index(1), 0);
    assert_eq!(v.index(3), 7);
}

#[test]
fn overlay_from_data_valid() {
    let info = Info::new_single_fallback(0, 2, -1i64).unwrap();
    let v = Vector::from_data(vec![10i64, 20, 30], info).unwrap();
    assert_eq!(v.index(0), 10);
    assert_eq!(v.index(2), 30);
}

#[test]
fn overlay_from_data_wrong_length_is_invalid_length() {
    let info = Info::new_single_fallback(0, 2, -1i64).unwrap();
    let r = Vector::from_data(vec![10i64, 20], info);
    assert_eq!(
        r.unwrap_err(),
        vector::vector::VectorError::InvalidLength { vector_length: 2, info_length: 3 },
    );
}

#[test]
fn owned_span_at_top_of_index_space() {
    let v = OwnedVector::from_vec(vec![9i64], usize::MAX, usize::MAX).unwrap();
    assert_eq!(v.len(), 1);
    assert_eq!(v.get(usize::MAX), Ok(9));
    assert_eq!(v.get(usize::MAX - 1), Err(VectorError::Indexing { index: usize::MAX - 1 }));
    assert_eq!(v.get(0), Err(VectorError::Indexing { index: 0 }));
}
