//! The error taxonomy shared by the offset-indexed vectors, together with the
//! pure validation helpers that every constructor runs.

use vstd::prelude::*;

verus! {

/// An enum for handling the errors involved in the creation and access of
/// [`OwnedVector`](crate::OwnedVector) and
/// [`BorrowedVector`](crate::BorrowedVector) instances.
#[derive(Debug, Copy, Clone, PartialEq, Eq, Structural)]
pub enum VectorError {
    /// Start and end are not ordered correctly.
    ///
    /// `start` > `end`.
    Order { start: usize, end: usize },
    /// The length of the given vector does not equal the expected value.
    ///
    /// `len` != `end` - `start` + 1.
    ///
    /// Note that the `end` index is included.
    Length { len: usize, start: usize, end: usize },
    /// There is no element at this index.
    ///
    /// When using the offset indexing this means that there is no element at
    /// `index` - `start`.
    Indexing { index: usize },
    /// The `start` and `end` arguments of two vectors are not compatible.
    ///
    /// Either `start_1` != `start_2` or `end_1` != `end_2`.
    Compatibility { start_1: usize, start_2: usize, end_1: usize, end_2: usize },
}

impl VectorError {
    /// The order check passes exactly when `start <= end`.
    pub open spec fn order_ok(start: usize, end: usize) -> bool {
        start <= end
    }

    /// The length check passes exactly when `len == end - start + 1`, stated
    /// in the underflow-free form `len + start == end + 1`.
    pub open spec fn len_ok(len: usize, start: usize, end: usize) -> bool {
        len + start == end + 1
    }

    /// Helper to validate the order of the `start` and `end` parameters.
    pub fn check_order(start: usize, end: usize) -> (r: Result<(), VectorError>)
        ensures
            Self::order_ok(start, end) ==> r == Ok::<(), VectorError>(()),
            !Self::order_ok(start, end) ==> r == Err::<(), VectorError>(
                VectorError::Order { start, end },
            ),
    {
        if start <= end {
            Ok(())
        } else {
            Err(VectorError::Order { start, end })
        }
    }

    /// Helper to validate the length of a vector against the `start` and
    /// `end` arguments.  The comparison is carried out in a wider integer
    /// type so that no intermediate sum can overflow.
    pub fn check_len(len: usize, start: usize, end: usize) -> (r: Result<(), VectorError>)
        ensures
            Self::len_ok(len, start, end) ==> r == Ok::<(), VectorError>(()),
            !Self::len_ok(len, start, end) ==> r == Err::<(), VectorError>(
                VectorError::Length { len, start, end },
            ),
    {
        if (len as u128) + (start as u128) == (end as u128) + 1 {
            Ok(())
        } else {
            Err(VectorError::Length { len, start, end })
        }
    }
}

} // verus!
