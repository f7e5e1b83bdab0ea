//! The owning variant of the offset-indexed vector.

use vstd::prelude::*;

use crate::borrowed_vector::BorrowedVector;
use crate::offset::{
    repeat_value, span_wf, spec_get, spec_get_absolute, spec_get_range, spec_get_range_inclusive,
    spec_slice,
};
use crate::span_vector::SpanVector;
use crate::vector_error::VectorError;
use crate::vectorable::Vectorable;

verus! {

/// A wrapper struct around a generic [`Vec`] allowing the automatic
/// calculation of indexing offsets.
///
/// The generic value needs to implement the [`Vectorable`] trait.
#[derive(Debug, Clone)]
pub struct OwnedVector<V: Vectorable> {
    /// The [`Vec`]tor containing the values.
    vector: Vec<V>,
    /// The start to allow the correct index offsetting.
    start: usize,
    /// The end to allow the assertion of the correct length.
    ///
    /// Note that the end is included.
    end: usize,
}

impl<V: Vectorable> OwnedVector<V> {
    /// The invariant every constructor establishes and every mutation
    /// preserves: the span is ordered and covers exactly the stored
    /// elements.
    pub open spec fn wf(&self) -> bool {
        span_wf(self.spec_data(), self.spec_start(), self.spec_end())
    }

    /// Creates a new [`OwnedVector`] instance based on a given [`Vec`].
    ///
    /// # Errors
    ///
    /// * [`VectorError::Order`] - `start` > `end`.
    /// * [`VectorError::Length`] - `vec.len() != end - start + 1`.
    pub fn from_vec(vec: Vec<V>, start: usize, end: usize) -> (r: Result<Self, VectorError>)
        ensures
            !VectorError::order_ok(start, end) ==> (r matches Err(e) && e == (VectorError::Order {
                start,
                end,
            })),
            VectorError::order_ok(start, end) && !VectorError::len_ok(
                vec@.len() as usize,
                start,
                end,
            ) ==> (r matches Err(e) && e == (VectorError::Length {
                len: vec@.len() as usize,
                start,
                end,
            })),
            VectorError::order_ok(start, end) && VectorError::len_ok(
                vec@.len() as usize,
                start,
                end,
            ) ==> (r matches Ok(v) && v.spec_data() == vec@ && v.spec_start() == start
                && v.spec_end() == end && v.wf()),
    {
        match VectorError::check_order(start, end) {
            Err(e) => {
                return Err(e);
            },
            Ok(()) => {},
        }
        match VectorError::check_len(vec.len(), start, end) {
            Err(e) => {
                return Err(e);
            },
            Ok(()) => {},
        }
        Ok(Self { vector: vec, start, end })
    }

    /// Creates a new [`OwnedVector`] with a given `value` at all positions.
    ///
    /// # Errors
    ///
    /// * [`VectorError::Order`] - `start` > `end`.
    pub fn from_num(value: V, start: usize, end: usize) -> (r: Result<Self, VectorError>)
        requires
            start == 0 ==> end < usize::MAX,
        ensures
            !VectorError::order_ok(start, end) ==> (r matches Err(e) && e == (VectorError::Order {
                start,
                end,
            })),
            VectorError::order_ok(start, end) ==> (r matches Ok(v) && v.spec_start() == start
                && v.spec_end() == end && v.wf() && v.spec_data() == Seq::new(
                (end - start + 1) as nat,
                |j: int| value,
            )),
    {
        match VectorError::check_order(start, end) {
            Err(e) => {
                return Err(e);
            },
            Ok(()) => {},
        }
        let vector: Vec<V> = repeat_value(value, end - start + 1);
        proof {
            assert(vector@ =~= Seq::new((end - start + 1) as nat, |j: int| value));
        }
        Ok(Self { vector, start, end })
    }

    /// Returns the value at the `index`th position using the offset indexing
    /// system.
    ///
    /// In the underlying [`Vec`] this is the element at position
    /// `index - start`; indices outside `[start, end]` report an indexing
    /// error instead of reading any memory.
    pub fn get(&self, index: usize) -> (r: Result<V, VectorError>)
        ensures
            r == spec_get(self.spec_data(), self.spec_start(), index),
    {
        if index >= self.start {
            let position = index - self.start;
            if position < self.vector.len() {
                Ok(self.vector[position])
            } else {
                Err(VectorError::Indexing { index })
            }
        } else {
            Err(VectorError::Indexing { index })
        }
    }

    /// Returns the value at the `index`th position using the original
    /// indexing system, ignoring the offset.
    pub fn get_absolute(&self, index: usize) -> (r: Result<V, VectorError>)
        ensures
            r == spec_get_absolute(self.spec_data(), index),
    {
        if index < self.vector.len() {
            Ok(self.vector[index])
        } else {
            Err(VectorError::Indexing { index })
        }
    }

    /// Returns a mutable reference to the value at the `index`th position
    /// using the offset indexing system, if that index lies inside the
    /// span; out-of-span indices have no stored value and yield nothing,
    /// leaving the vector unchanged.
    pub fn get_mut(&mut self, index: usize) -> (r: Option<&mut V>)
        requires
            old(self).wf(),
        ensures
            old(self).spec_start() <= index <= old(self).spec_end() ==> (r matches Some(p)
                && *p == old(self).spec_data()[index - old(self).spec_start()]
                && final(self).spec_data() == old(self).spec_data().update(
                    index - old(self).spec_start(),
                    *final(p),
                )
                && final(self).spec_start() == old(self).spec_start()
                && final(self).spec_end() == old(self).spec_end()
                && final(self).wf()),
            !(old(self).spec_start() <= index <= old(self).spec_end()) ==> r is None
                && *final(self) == *old(self),
    {
        let start = self.start;
        let end = self.end;
        if index >= start && index <= end {
            let internal_index = index - start;
            Some(&mut self.vector[internal_index])
        } else {
            None
        }
    }

    /// Writes `value` at the `index`th position using the offset indexing
    /// system.  An index outside `[start, end]` is a programming error and
    /// is excluded here.
    pub fn set(&mut self, index: usize, value: V)
        requires
            old(self).wf(),
            old(self).spec_start() <= index <= old(self).spec_end(),
        ensures
            final(self).spec_data() == old(self).spec_data().update(
                index - old(self).spec_start(),
                value,
            ),
            final(self).spec_start() == old(self).spec_start(),
            final(self).spec_end() == old(self).spec_end(),
            final(self).wf(),
    {
        let position = index - self.start;
        self.vector.set(position, value);
    }

    /// Slices into an [`OwnedVector`] and returns a corresponding
    /// [`BorrowedVector`] over the contiguous sub-range.
    pub fn slice(&self, start: usize, end: usize) -> (r: Result<
        BorrowedVector<'_, V>,
        VectorError,
    >)
        requires
            self.wf(),
        ensures
            match spec_slice(self.spec_data(), self.spec_start(), self.spec_end(), start, end) {
                Ok((data, s, e)) => r matches Ok(b) && b.spec_data() == data && b.spec_start() == s
                    && b.spec_end() == e && b.wf(),
                Err(err) => r matches Err(e2) && e2 == err,
            },
    {
        if start >= self.start && end <= self.end {
            match VectorError::check_order(start, end) {
                Err(e) => {
                    return Err(e);
                },
                Ok(()) => {},
            }
            let _stored: usize = self.vector.len();
            let internal_start: usize = start - self.start;
            let internal_end: usize = end - self.start;
            let slice: &[V] = vstd::slice::slice_subrange(
                self.vector.as_slice(),
                internal_start,
                internal_end + 1,
            );
            BorrowedVector::try_new(slice, start, end)
        } else {
            let index: usize = if start < self.start {
                start
            } else {
                end
            };
            Err(VectorError::Indexing { index })
        }
    }


    /// Returns a contiguous borrowed view of the half-open offset range
    /// `[start, end)`.
    ///
    /// The upper bound may reach one past the span's end, so the empty
    /// trailing range can be expressed.  A request outside the span reports
    /// an indexing error naming the violated container bound.
    pub fn get_range(&self, start: usize, end: usize) -> (r: Result<&[V], VectorError>)
        requires
            self.wf(),
        ensures
            match spec_get_range(self.spec_data(), self.spec_start(), self.spec_end(), start, end) {
                Ok(data) => r matches Ok(s) && s@ == data,
                Err(err) => r matches Err(e2) && e2 == err,
            },
    {
        if start >= self.start && (end <= self.end || end - 1 == self.end) {
            if start <= end {
                let internal_start: usize = start - self.start;
                let internal_end: usize = end - self.start;
                Ok(vstd::slice::slice_subrange(self.vector.as_slice(), internal_start, internal_end))
            } else {
                Err(VectorError::Order { start, end })
            }
        } else {
            let index: usize = if start < self.start {
                self.start
            } else {
                self.end
            };
            Err(VectorError::Indexing { index })
        }
    }

    /// Returns a contiguous borrowed view of the closed offset range
    /// `[start, end]`.
    ///
    /// Unlike the half-open form this cannot express an empty range, and
    /// the upper bound must stay inside the span.  A request outside the
    /// span reports an indexing error naming the violated container bound.
    pub fn get_range_inclusive(&self, start: usize, end: usize) -> (r: Result<&[V], VectorError>)
        requires
            self.wf(),
        ensures
            match spec_get_range_inclusive(
                self.spec_data(),
                self.spec_start(),
                self.spec_end(),
                start,
                end,
            ) {
                Ok(data) => r matches Ok(s) && s@ == data,
                Err(err) => r matches Err(e2) && e2 == err,
            },
    {
        if start >= self.start && end <= self.end {
            if start <= end {
                let _stored: usize = self.vector.len();
                let internal_start: usize = start - self.start;
                let internal_end: usize = end - self.start;
                Ok(
                    vstd::slice::slice_subrange(
                        self.vector.as_slice(),
                        internal_start,
                        internal_end + 1,
                    ),
                )
            } else {
                Err(VectorError::Order { start, end })
            }
        } else {
            let index: usize = if start < self.start {
                self.start
            } else {
                self.end
            };
            Err(VectorError::Indexing { index })
        }
    }

    /// Wraps the entire storage as a [`BorrowedVector`] with identical
    /// span, re-running the construction-time validation (defensive: with
    /// the invariant in force it always succeeds).
    pub fn to_borrowed(&self) -> (r: Result<BorrowedVector<'_, V>, VectorError>)
        requires
            self.wf(),
        ensures
            r matches Ok(b) && b.spec_data() == self.spec_data() && b.spec_start()
                == self.spec_start() && b.spec_end() == self.spec_end() && b.wf(),
    {
        let _stored: usize = self.vector.len();
        BorrowedVector::try_new(self.vector.as_slice(), self.start, self.end)
    }

    /// Returns the length of the underlying vector.
    pub fn len(&self) -> (r: usize)
        ensures
            r == self.spec_data().len(),
    {
        self.vector.len()
    }
}

impl<V: Default + Vectorable> OwnedVector<V> {
    /// Creates a new [`OwnedVector`] instance based on a given `start` and
    /// `end`, filled with the [`Default`] value of the element type.
    ///
    /// # Errors
    ///
    /// * [`VectorError::Order`] - `start` > `end`.
    pub fn new(start: usize, end: usize) -> (r: Result<Self, VectorError>)
        requires
            start == 0 ==> end < usize::MAX,
        ensures
            !VectorError::order_ok(start, end) ==> (r matches Err(e) && e == (VectorError::Order {
                start,
                end,
            })),
            VectorError::order_ok(start, end) ==> (r matches Ok(v) && v.spec_start() == start
                && v.spec_end() == end && v.wf() && forall|j: int|
                0 <= j < v.spec_data().len() ==> call_ensures(
                    V::default,
                    (),
                    #[trigger] v.spec_data()[j],
                )),
    {
        match VectorError::check_order(start, end) {
            Err(e) => {
                return Err(e);
            },
            Ok(()) => {},
        }
        let value = V::default();
        let vector: Vec<V> = repeat_value(value, end - start + 1);
        Ok(Self { vector, start, end })
    }
}

impl<V: Vectorable> SpanVector<V> for OwnedVector<V> {
    closed spec fn spec_start(&self) -> usize {
        self.start
    }

    closed spec fn spec_end(&self) -> usize {
        self.end
    }

    closed spec fn spec_data(&self) -> Seq<V> {
        self.vector@
    }

    /// Returns the `start` index of the [`OwnedVector`].
    fn start(&self) -> (r: usize) {
        self.start
    }

    /// Returns the `end` index of the [`OwnedVector`].
    fn end(&self) -> (r: usize) {
        self.end
    }

    /// Returns copies of the stored elements in storage order.
    fn iter(&self) -> (r: Vec<V>) {
        vstd::slice::slice_to_vec(self.vector.as_slice())
    }

    /// Exposes the stored elements as one contiguous borrowed view.
    fn as_contiguous_view(&self) -> (r: &[V]) {
        self.vector.as_slice()
    }
}

} // verus!
