//! The capability interface that both ownership variants implement, so that
//! generic code can treat them interchangeably for reads and span checks.

use vstd::prelude::*;

use crate::vector_error::VectorError;
use crate::vectorable::Vectorable;

verus! {

/// The read-side capabilities shared by [`OwnedVector`](crate::OwnedVector)
/// and [`BorrowedVector`](crate::BorrowedVector): both expose an inclusive
/// index span and their stored elements in storage order.
pub trait SpanVector<V: Vectorable>: Sized {
    /// The first index where an element is located.
    spec fn spec_start(&self) -> usize;

    /// The last index where an element is located.
    spec fn spec_end(&self) -> usize;

    /// The stored elements in storage order.
    spec fn spec_data(&self) -> Seq<V>;

    /// Returns the `start` index.
    fn start(&self) -> (r: usize)
        ensures
            r == self.spec_start(),
    ;

    /// Returns the `end` index.
    fn end(&self) -> (r: usize)
        ensures
            r == self.spec_end(),
    ;

    /// Returns copies of the stored elements in storage order, ignoring the
    /// offset indexing.
    fn iter(&self) -> (r: Vec<V>)
        ensures
            r@ == self.spec_data(),
    ;

    /// Exposes the stored elements as one contiguous borrowed view in
    /// storage order.
    fn as_contiguous_view(&self) -> (r: &[V])
        ensures
            r@ == self.spec_data(),
    ;
}

/// Two spans are compatible exactly when they agree on both bounds.
pub open spec fn spec_compatible(start_1: usize, end_1: usize, start_2: usize, end_2: usize) -> bool {
    start_1 == start_2 && end_1 == end_2
}

/// Checks that two vectors cover exactly the same index span, the
/// precondition of every operation that assumes index-for-index
/// correspondence between them.  On failure the error reports both spans.
pub fn compatible<V: Vectorable, A: SpanVector<V>, B: SpanVector<V>>(first: &A, second: &B) -> (r:
    Result<(), VectorError>)
    ensures
        spec_compatible(first.spec_start(), first.spec_end(), second.spec_start(), second.spec_end())
            ==> r == Ok::<(), VectorError>(()),
        !spec_compatible(
            first.spec_start(),
            first.spec_end(),
            second.spec_start(),
            second.spec_end(),
        ) ==> r == Err::<(), VectorError>(
            VectorError::Compatibility {
                start_1: first.spec_start(),
                start_2: second.spec_start(),
                end_1: first.spec_end(),
                end_2: second.spec_end(),
            },
        ),
{
    if first.start() == second.start() && first.end() == second.end() {
        Ok(())
    } else {
        Err(VectorError::Compatibility {
            start_1: first.start(),
            start_2: second.start(),
            end_1: first.end(),
            end_2: second.end(),
        })
    }
}

/// Span compatibility is symmetric in its two arguments.
pub proof fn lemma_compatible_symmetric(start_1: usize, end_1: usize, start_2: usize, end_2: usize)
    ensures
        spec_compatible(start_1, end_1, start_2, end_2) == spec_compatible(
            start_2,
            end_2,
            start_1,
            end_1,
        ),
{
}

} // verus!
