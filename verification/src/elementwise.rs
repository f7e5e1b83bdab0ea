//! The mathematical model of the elementwise arithmetic offered by the
//! fallback-overlay vector: position-by-position combination of two equally
//! long element sequences, together with the side conditions under which the
//! machine operations cannot overflow, and the algebraic laws they obey.

use vstd::prelude::*;

verus! {

/// The elementwise sum of two equally long sequences.
pub open spec fn seq_add(a: Seq<i64>, b: Seq<i64>) -> Seq<i64> {
    Seq::new(a.len(), |j: int| (a[j] + b[j]) as i64)
}

/// No elementwise sum overflows the element type.
pub open spec fn add_fits(a: Seq<i64>, b: Seq<i64>) -> bool {
    forall|j: int|
        0 <= j < a.len() ==> i64::MIN <= #[trigger] a[j] + #[trigger] b[j] <= i64::MAX
}

/// The elementwise difference of two equally long sequences.
pub open spec fn seq_sub(a: Seq<i64>, b: Seq<i64>) -> Seq<i64> {
    Seq::new(a.len(), |j: int| (a[j] - b[j]) as i64)
}

/// No elementwise difference overflows the element type.
pub open spec fn sub_fits(a: Seq<i64>, b: Seq<i64>) -> bool {
    forall|j: int|
        0 <= j < a.len() ==> i64::MIN <= #[trigger] a[j] - #[trigger] b[j] <= i64::MAX
}

/// The elementwise product of two equally long sequences.
pub open spec fn seq_mul(a: Seq<i64>, b: Seq<i64>) -> Seq<i64> {
    Seq::new(a.len(), |j: int| (a[j] * b[j]) as i64)
}

/// No elementwise product overflows the element type.
pub open spec fn mul_fits(a: Seq<i64>, b: Seq<i64>) -> bool {
    forall|j: int|
        0 <= j < a.len() ==> i64::MIN <= #[trigger] a[j] * b[j] <= i64::MAX
}

/// Truncating division, the semantics of the `/` operator on the element
/// type: the quotient is rounded towards zero.
pub open spec fn div_trunc(x: i64, d: i64) -> int
    recommends
        d != 0,
{
    let xi = x as int;
    let di = d as int;
    if xi == 0 {
        0
    } else if xi > 0 && di > 0 {
        xi / di
    } else if xi < 0 && di < 0 {
        (xi * -1) / (di * -1)
    } else if xi < 0 {
        ((xi * -1) / di) * -1
    } else {
        (xi / (di * -1)) * -1
    }
}

/// The elementwise truncating quotient of two equally long sequences.
pub open spec fn seq_div(a: Seq<i64>, b: Seq<i64>) -> Seq<i64> {
    Seq::new(a.len(), |j: int| div_trunc(a[j], b[j]) as i64)
}

/// Every elementwise division is defined: no divisor is zero and the one
/// overflowing quotient of the element type is excluded.
pub open spec fn div_ok(a: Seq<i64>, b: Seq<i64>) -> bool {
    forall|j: int|
        0 <= j < a.len() ==> #[trigger] b[j] != 0 && !(#[trigger] a[j] == i64::MIN && b[j] == -1)
}

/// The elementwise negation of a sequence.
pub open spec fn seq_neg(a: Seq<i64>) -> Seq<i64> {
    Seq::new(a.len(), |j: int| (-a[j]) as i64)
}

/// No elementwise negation overflows the element type.
pub open spec fn neg_fits(a: Seq<i64>) -> bool {
    forall|j: int| 0 <= j < a.len() ==> #[trigger] a[j] != i64::MIN
}

/// Every element scaled by the same factor.
pub open spec fn seq_mul_scalar(a: Seq<i64>, factor: i64) -> Seq<i64> {
    Seq::new(a.len(), |j: int| (a[j] * factor) as i64)
}

/// No scaled element overflows the element type.
pub open spec fn mul_scalar_fits(a: Seq<i64>, factor: i64) -> bool {
    forall|j: int|
        0 <= j < a.len() ==> i64::MIN <= #[trigger] a[j] * factor <= i64::MAX
}

/// Every element divided (truncating) by the same divisor.
pub open spec fn seq_div_scalar(a: Seq<i64>, divisor: i64) -> Seq<i64> {
    Seq::new(a.len(), |j: int| div_trunc(a[j], divisor) as i64)
}

/// Every division by the shared divisor is defined.
pub open spec fn div_scalar_ok(a: Seq<i64>, divisor: i64) -> bool {
    divisor != 0 && forall|j: int|
        0 <= j < a.len() ==> !(#[trigger] a[j] == i64::MIN && divisor == -1)
}

/// A defined truncating quotient stays inside the element type, so the
/// machine division cannot fail.
pub proof fn lemma_div_trunc_fits(x: i64, d: i64)
    requires
        d != 0,
        !(x == i64::MIN && d == -1),
    ensures
        i64::MIN <= div_trunc(x, d) <= i64::MAX,
        i64::checked_div(x, d) == Some((div_trunc(x, d)) as i64),
{
    let xi = x as int;
    let di = d as int;
    if xi > 0 && di > 0 {
        vstd::arithmetic::div_mod::lemma_div_pos_is_pos(xi, di);
        vstd::arithmetic::div_mod::lemma_div_nonincreasing(xi, di);
    } else if xi < 0 && di < 0 {
        vstd::arithmetic::div_mod::lemma_div_pos_is_pos(-xi, -di);
        vstd::arithmetic::div_mod::lemma_div_nonincreasing(-xi, -di);
        if -di >= 2 {
            vstd::arithmetic::div_mod::lemma_div_is_ordered_by_denominator(-xi, 2, -di);
        }
    } else if xi < 0 && di > 0 {
        vstd::arithmetic::div_mod::lemma_div_pos_is_pos(-xi, di);
        vstd::arithmetic::div_mod::lemma_div_nonincreasing(-xi, di);
    } else if xi > 0 && di < 0 {
        vstd::arithmetic::div_mod::lemma_div_pos_is_pos(xi, -di);
        vstd::arithmetic::div_mod::lemma_div_nonincreasing(xi, -di);
    }
}

/// Elementwise addition is commutative: combining two equally long
/// sequences in either order yields the same sequence, because addition of
/// the elements themselves is commutative.
pub proof fn lemma_seq_add_commutative(a: Seq<i64>, b: Seq<i64>)
    requires
        a.len() == b.len(),
    ensures
        seq_add(a, b) == seq_add(b, a),
{
    assert(seq_add(a, b) =~= seq_add(b, a));
}

/// Elementwise addition is associative whenever no pairwise or total sum
/// overflows the element type, because addition of the elements themselves
/// is associative.
pub proof fn lemma_seq_add_associative(a: Seq<i64>, b: Seq<i64>, c: Seq<i64>)
    requires
        a.len() == b.len(),
        b.len() == c.len(),
        add_fits(a, b),
        add_fits(b, c),
        forall|j: int|
            0 <= j < a.len() ==> i64::MIN <= #[trigger] a[j] + #[trigger] b[j] + #[trigger] c[j]
                <= i64::MAX,
    ensures
        seq_add(seq_add(a, b), c) == seq_add(a, seq_add(b, c)),
{
    assert forall|j: int| 0 <= j < a.len() implies seq_add(seq_add(a, b), c)[j] == seq_add(
        a,
        seq_add(b, c),
    )[j] by {
        assert(a[j] + b[j] + c[j] == (a[j] + b[j]) as i64 + c[j]);
        assert(a[j] + b[j] + c[j] == a[j] + (b[j] + c[j]) as i64);
    }
    assert(seq_add(seq_add(a, b), c) =~= seq_add(a, seq_add(b, c)));
}

} // verus!
