//! The borrowing variant of the offset-indexed vector.

use vstd::prelude::*;

use crate::offset::{
    span_wf, spec_get, spec_get_absolute, spec_get_range, spec_get_range_inclusive, spec_slice,
};
use crate::span_vector::SpanVector;
use crate::vector_error::VectorError;
use crate::vectorable::Vectorable;

verus! {

/// A wrapper struct around a generic slice allowing the automatic
/// calculation of indexing offsets.
///
/// The view never owns the storage it reads through; its lifetime is tied to
/// the storage it was derived from.  The generic value needs to implement
/// the [`Vectorable`] trait.
#[derive(Debug)]
pub struct BorrowedVector<'a, V: Vectorable> {
    slice: &'a [V],
    start: usize,
    end: usize,
}

impl<'a, V: Vectorable> BorrowedVector<'a, V> {
    /// The invariant every constructor establishes: the span is ordered and
    /// covers exactly the borrowed elements.
    pub open spec fn wf(&self) -> bool {
        span_wf(self.spec_data(), self.spec_start(), self.spec_end())
    }

    /// Creates a new [`BorrowedVector`] based on a given slice, `start` and
    /// `end` arguments.
    pub fn try_new(slice: &'a [V], start: usize, end: usize) -> (r: Result<Self, VectorError>)
        ensures
            !VectorError::order_ok(start, end) ==> (r matches Err(e) && e == (VectorError::Order {
                start,
                end,
            })),
            VectorError::order_ok(start, end) && !VectorError::len_ok(
                slice@.len() as usize,
                start,
                end,
            ) ==> (r matches Err(e) && e == (VectorError::Length {
                len: slice@.len() as usize,
                start,
                end,
            })),
            VectorError::order_ok(start, end) && VectorError::len_ok(
                slice@.len() as usize,
                start,
                end,
            ) ==> (r matches Ok(b) && b.spec_data() == slice@ && b.spec_start() == start
                && b.spec_end() == end && b.wf()),
    {
        match VectorError::check_order(start, end) {
            Err(e) => {
                return Err(e);
            },
            Ok(()) => {},
        }
        match VectorError::check_len(slice.len(), start, end) {
            Err(e) => {
                return Err(e);
            },
            Ok(()) => {},
        }
        Ok(Self { slice, start, end })
    }

    /// Creates a new [`BorrowedVector`] based on a given slice, `start` and
    /// `end` arguments.  Arguments that [`Self::try_new`] would reject are a
    /// programming error and are excluded here.
    pub fn new(slice: &'a [V], start: usize, end: usize) -> (r: Self)
        requires
            VectorError::order_ok(start, end),
            slice@.len() == end - start + 1,
        ensures
            r.spec_data() == slice@,
            r.spec_start() == start,
            r.spec_end() == end,
            r.wf(),
    {
        Self { slice, start, end }
    }

    /// Returns the value at the `index`th position using the offset indexing
    /// system.
    ///
    /// In the underlying slice this is the element at position
    /// `index - start`; indices outside `[start, end]` report an indexing
    /// error instead of reading any memory.
    pub fn get(&self, index: usize) -> (r: Result<V, VectorError>)
        ensures
            r == spec_get(self.spec_data(), self.spec_start(), index),
    {
        if index >= self.start {
            let position = index - self.start;
            if position < self.slice.len() {
                Ok(*vstd::slice::slice_index_get(self.slice, position))
            } else {
                Err(VectorError::Indexing { index })
            }
        } else {
            Err(VectorError::Indexing { index })
        }
    }

    /// Returns the value at the `index`th position using the original
    /// indexing system, ignoring the offset.
    pub fn get_absolute(&self, index: usize) -> (r: Result<V, VectorError>)
        ensures
            r == spec_get_absolute(self.spec_data(), index),
    {
        if index < self.slice.len() {
            Ok(*vstd::slice::slice_index_get(self.slice, index))
        } else {
            Err(VectorError::Indexing { index })
        }
    }

    /// Slices into a [`BorrowedVector`] and returns another
    /// [`BorrowedVector`].
    ///
    /// The request is validated against this view's own current span, so
    /// re-slicing only ever narrows.
    pub fn slice(&self, start: usize, end: usize) -> (r: Result<BorrowedVector<'a, V>, VectorError>)
        requires
            self.wf(),
        ensures
            match spec_slice(self.spec_data(), self.spec_start(), self.spec_end(), start, end) {
                Ok((data, s, e)) => r matches Ok(b) && b.spec_data() == data && b.spec_start() == s
                    && b.spec_end() == e && b.wf(),
                Err(err) => r matches Err(e2) && e2 == err,
            },
    {
        if start >= self.start && end <= self.end {
            match VectorError::check_order(start, end) {
                Err(e) => {
                    return Err(e);
                },
                Ok(()) => {},
            }
            let _stored: usize = self.slice.len();
            let internal_start: usize = start - self.start;
            let internal_end: usize = end - self.start;
            let slice: &[V] = vstd::slice::slice_subrange(
                self.slice,
                internal_start,
                internal_end + 1,
            );
            BorrowedVector::try_new(slice, start, end)
        } else {
            let index: usize = if start < self.start {
                start
            } else {
                end
            };
            Err(VectorError::Indexing { index })
        }
    }


    /// Returns a contiguous borrowed view of the half-open offset range
    /// `[start, end)`.
    ///
    /// The upper bound may reach one past the span's end, so the empty
    /// trailing range can be expressed.  A request outside the span reports
    /// an indexing error naming the violated container bound.
    pub fn get_range(&self, start: usize, end: usize) -> (r: Result<&[V], VectorError>)
        requires
            self.wf(),
        ensures
            match spec_get_range(self.spec_data(), self.spec_start(), self.spec_end(), start, end) {
                Ok(data) => r matches Ok(s) && s@ == data,
                Err(err) => r matches Err(e2) && e2 == err,
            },
    {
        if start >= self.start && (end <= self.end || end - 1 == self.end) {
            if start <= end {
                let internal_start: usize = start - self.start;
                let internal_end: usize = end - self.start;
                Ok(vstd::slice::slice_subrange(self.slice, internal_start, internal_end))
            } else {
                Err(VectorError::Order { start, end })
            }
        } else {
            let index: usize = if start < self.start {
                self.start
            } else {
                self.end
            };
            Err(VectorError::Indexing { index })
        }
    }

    /// Returns a contiguous borrowed view of the closed offset range
    /// `[start, end]`.
    ///
    /// Unlike the half-open form this cannot express an empty range, and
    /// the upper bound must stay inside the span.  A request outside the
    /// span reports an indexing error naming the violated container bound.
    pub fn get_range_inclusive(&self, start: usize, end: usize) -> (r: Result<&[V], VectorError>)
        requires
            self.wf(),
        ensures
            match spec_get_range_inclusive(
                self.spec_data(),
                self.spec_start(),
                self.spec_end(),
                start,
                end,
            ) {
                Ok(data) => r matches Ok(s) && s@ == data,
                Err(err) => r matches Err(e2) && e2 == err,
            },
    {
        if start >= self.start && end <= self.end {
            if start <= end {
                let _stored: usize = self.slice.len();
                let internal_start: usize = start - self.start;
                let internal_end: usize = end - self.start;
                Ok(
                    vstd::slice::slice_subrange(
                        self.slice,
                        internal_start,
                        internal_end + 1,
                    ),
                )
            } else {
                Err(VectorError::Order { start, end })
            }
        } else {
            let index: usize = if start < self.start {
                self.start
            } else {
                self.end
            };
            Err(VectorError::Indexing { index })
        }
    }

    /// Returns the length of the underlying slice.
    pub fn len(&self) -> (r: usize)
        ensures
            r == self.spec_data().len(),
    {
        self.slice.len()
    }
}

impl<'a, V: Vectorable> SpanVector<V> for BorrowedVector<'a, V> {
    closed spec fn spec_start(&self) -> usize {
        self.start
    }

    closed spec fn spec_end(&self) -> usize {
        self.end
    }

    closed spec fn spec_data(&self) -> Seq<V> {
        self.slice@
    }

    /// Returns the `start` index of the [`BorrowedVector`].
    fn start(&self) -> (r: usize) {
        self.start
    }

    /// Returns the `end` index of the [`BorrowedVector`].
    fn end(&self) -> (r: usize) {
        self.end
    }

    /// Returns copies of the borrowed elements in storage order.
    fn iter(&self) -> (r: Vec<V>) {
        vstd::slice::slice_to_vec(self.slice)
    }

    /// Exposes the borrowed elements as one contiguous view.
    fn as_contiguous_view(&self) -> (r: &[V]) {
        self.slice
    }
}

} // verus!
