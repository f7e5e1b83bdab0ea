use vector::vector::VectorError;
use vector::{Info, Vector};

fn overlay(values: Vec<i64>, start: usize, fallback_below: i64, fallback_above: i64) -> Vector<i64> {
    let end = start + values.len() - 1;
    let info = Info::new(start, end, fallback_below, fallback_above).unwrap();
    Vector::from_data(values, info).unwrap()
}

#[test]
fn try_add_assign_adds_elementwise() {
    let mut a = overlay(vec![1, 2, 3], 0, 0, 0);
    let b = overlay(vec![10, 20, 30], 0, 0, 0);
    assert_eq!(a.try_add_assign(&b), Ok(()));
    assert_eq!(a.iter(), vec![11, 22, 33]);
}

#[test]
fn try_sub_assign_subtracts_elementwise() {
    let mut a = overlay(vec![10, 20, 30], 0, 0, 0);
    let b = overlay(vec![1, 2, 3], 0, 0, 0);
    assert_eq!(a.try_sub_assign(&b), Ok(()));
    assert_eq!(a.iter(), vec![9, 18, 27]);
}

#[test]
fn try_mul_assign_multiplies_elementwise() {
    let mut a = overlay(vec![1, -2, 3], 0, 0, 0);
    let b = overlay(vec![4, 5, -6], 0, 0, 0);
    assert_eq!(a.try_mul_assign(&b), Ok(()));
    assert_eq!(a.iter(), vec![4, -10, -18]);
}

#[test]
fn try_div_assign_divides_truncating() {
    let mut a = overlay(vec![7, -7, 9], 0, 0, 0);
    let b = overlay(vec![2, 2, -4], 0, 0, 0);
    assert_eq!(a.try_div_assign(&b), Ok(()));
    assert_eq!(a.iter(), vec![3, -3, -2]);
}

#[test]
fn try_add_assign_mismatched_span_is_incompatible_interval() {
    let mut a = overlay(vec![1, 2, 3], 0, 0, 0);
    let b = overlay(vec![1, 2, 3], 1, 0, 0);
    assert_eq!(
        a.try_add_assign(&b),
        Err(VectorError::IncompatibleInterval { start_1: 0, end_1: 2, start_2: 1, end_2: 3 }),
    );
    assert_eq!(a.iter(), vec![1, 2, 3]);
}

#[test]
fn try_add_assign_mismatched_fallback_leaves_operand_untouched() {
    let mut a = overlay(vec![10, 20, 30], 0, -1, -2);
    let b = overlay(vec![1, 1, 1], 0, -1, -3);
    assert_eq!(a.try_add_assign(&b), Err(VectorError::IncompatibleFallback));
    assert_eq!(a.iter(), vec![10, 20, 30]);
}

#[test]
fn scenario_overlay_fallbacks_and_incompatible_addition() {
    let v = overlay(vec![10, 20, 30], 0, -1, -2);
    assert_eq!(v.index(3), -2);
    let w = overlay(vec![1, 1, 1], 0, -1, -3);
    assert_eq!(v.add(&w).unwrap_err(), VectorError::IncompatibleFallback);
}

#[test]
fn add_is_commutative_on_compatible_operands() {
    let a = overlay(vec![1, -2, 3], 5, -1, -2);
    let b = overlay(vec![10, 20, -30], 5, -1, -2);
    let left = a.add(&b).unwrap();
    let right = b.add(&a).unwrap();
    assert_eq!(left.iter(), vec![11, 18, -27]);
    assert_eq!(left.iter(), right.iter());
    assert_eq!(left.start(), right.start());
    assert_eq!(left.end(), right.end());
    assert_eq!(left.info().fallback_start(), right.info().fallback_start());
    assert_eq!(left.info().fallback_end(), right.info().fallback_end());
}

#[test]
fn add_is_associative_on_compatible_operands() {
    let a = overlay(vec![1, 2, 3], 0, 0, 0);
    let b = overlay(vec![4, 5, 6], 0, 0, 0);
    let c = overlay(vec![7, 8, 9], 0, 0, 0);
    let left = a.add(&b).unwrap().add(&c).unwrap();
    let right = a.add(&b.add(&c).unwrap()).unwrap();
    assert_eq!(left.iter(), vec![12, 15, 18]);
    assert_eq!(left.iter(), right.iter());
}

#[test]
fn add_mismatched_span_is_incompatible_interval() {
    let a = overlay(vec![1, 2], 0, 0, 0);
    let b = overlay(vec![1, 2], 3, 0, 0);
    assert_eq!(
        a.add(&b).unwrap_err(),
        VectorError::IncompatibleInterval { start_1: 0, end_1: 1, start_2: 3, end_2: 4 },
    );
}

#[test]
fn sub_and_mul_and_div_produce_fresh_vectors() {
    let a = overlay(vec![8, -9, 10], 2, 0, 0);
    let b = overlay(vec![2, 3, -5], 2, 0, 0);
    let s = a.sub(&b).unwrap();
    assert_eq!(s.iter(), vec![6, -12, 15]);
    let m = a.mul(&b).unwrap();
    assert_eq!(m.iter(), vec![16, -27, -50]);
    let d = a.div(&b).unwrap();
    assert_eq!(d.iter(), vec![4, -3, -2]);
    assert_eq!(a.iter(), vec![8, -9, 10]);
    assert_eq!(b.iter(), vec![2, 3, -5]);
}

#[test]
fn neg_negates_every_element_and_keeps_info() {
    let a = overlay(vec![1, -2, 0], 0, -7, -8);
    let n = a.neg();
    assert_eq!(n.iter(), vec![-1, 2, 0]);
    assert_eq!(n.info().fallback_start(), -7);
    assert_eq!(n.info().fallback_end(), -8);
}

#[test]
fn scalar_multiplication_and_division() {
    let a = overlay(vec![3, -7, 0], 0, 0, 0);
    let doubled = a.mul_scalar(2);
    assert_eq!(doubled.iter(), vec![6, -14, 0]);
    let halved = a.div_scalar(2);
    assert_eq!(halved.iter(), vec![1, -3, 0]);
    let negated = a.div_scalar(-1);
    assert_eq!(negated.iter(), vec![-3, 7, 0]);
}
