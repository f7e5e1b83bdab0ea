//! The mathematical model of offset indexing, shared by
//! [`OwnedVector`](crate::OwnedVector) and
//! [`BorrowedVector`](crate::BorrowedVector).
//!
//! A container of this family is modelled by the sequence of its stored
//! elements together with its inclusive span `[start, end]`.  The functions
//! here say, over that model, what a well-formed container is and what the
//! read and narrowing operations return; the proof functions state the
//! round-trip, rejection and narrowing laws that the containers obey.

use vstd::prelude::*;

use crate::vector_error::VectorError;

verus! {

/// The shared invariant: the span is ordered and the backing store holds
/// exactly one element per index of the span.
pub open spec fn span_wf<V>(data: Seq<V>, start: usize, end: usize) -> bool {
    start <= end && data.len() == end - start + 1
}

/// What an offset read returns: the element at storage position
/// `index - start` when the index lies inside the span, and an indexing
/// error naming the offending index otherwise.
pub open spec fn spec_get<V>(data: Seq<V>, start: usize, index: usize) -> Result<V, VectorError> {
    if start <= index && index - start < data.len() {
        Ok(data[index - start])
    } else {
        Err(VectorError::Indexing { index })
    }
}

/// What an absolute read returns: the element at the native zero-based
/// storage position, ignoring the offset.
pub open spec fn spec_get_absolute<V>(data: Seq<V>, index: usize) -> Result<V, VectorError> {
    if index < data.len() {
        Ok(data[index as int])
    } else {
        Err(VectorError::Indexing { index })
    }
}

/// What narrowing a container to `[start, end]` returns: the contiguous
/// sub-range together with the new span on success; an indexing error naming
/// the violated bound when the request is not contained in the current span
/// (the lower bound when `start` undershoots, the upper bound otherwise);
/// and an order error when the request itself is reversed, by the same rule
/// construction uses.
pub open spec fn spec_slice<V>(
    data: Seq<V>,
    self_start: usize,
    self_end: usize,
    start: usize,
    end: usize,
) -> Result<(Seq<V>, usize, usize), VectorError> {
    if start >= self_start && end <= self_end {
        if start <= end {
            Ok((data.subrange(start - self_start, end - self_start + 1), start, end))
        } else {
            Err(VectorError::Order { start, end })
        }
    } else {
        Err(VectorError::Indexing { index: if start < self_start { start } else { end } })
    }
}

/// What extracting the half-open range `[start, end)` returns: the
/// contiguous elements with offset indices from `start` up to but excluding
/// `end`.  The upper bound may reach one past the span to permit the empty
/// trailing range.  A request outside the span reports an indexing error
/// naming the violated container bound; a reversed request reports an order
/// error.
pub open spec fn spec_get_range<V>(
    data: Seq<V>,
    self_start: usize,
    self_end: usize,
    start: usize,
    end: usize,
) -> Result<Seq<V>, VectorError> {
    if start >= self_start && end <= self_end + 1 {
        if start <= end {
            Ok(data.subrange(start - self_start, end - self_start))
        } else {
            Err(VectorError::Order { start, end })
        }
    } else {
        Err(
            VectorError::Indexing {
                index: if start < self_start {
                    self_start
                } else {
                    self_end
                },
            },
        )
    }
}

/// What extracting the closed range `[start, end]` returns: the contiguous
/// elements with offset indices from `start` to `end` inclusive.  Unlike the
/// half-open form this cannot express an empty range, and the upper bound
/// must stay inside the span.  The error policy matches the half-open form.
pub open spec fn spec_get_range_inclusive<V>(
    data: Seq<V>,
    self_start: usize,
    self_end: usize,
    start: usize,
    end: usize,
) -> Result<Seq<V>, VectorError> {
    if start >= self_start && end <= self_end {
        if start <= end {
            Ok(data.subrange(start - self_start, end - self_start + 1))
        } else {
            Err(VectorError::Order { start, end })
        }
    } else {
        Err(
            VectorError::Indexing {
                index: if start < self_start {
                    self_start
                } else {
                    self_end
                },
            },
        )
    }
}

/// Writing a value at an in-span index and reading the same index back
/// returns exactly that value.
pub proof fn lemma_write_read_round_trip<V>(
    data: Seq<V>,
    start: usize,
    end: usize,
    index: usize,
    value: V,
)
    requires
        span_wf(data, start, end),
        start <= index <= end,
    ensures
        spec_get(data.update(index - start, value), start, index) == Ok::<V, VectorError>(value),
{
}

/// A read outside the span never touches the storage: it fails with an
/// indexing error carrying the requested index.
pub proof fn lemma_get_out_of_span<V>(data: Seq<V>, start: usize, end: usize, index: usize)
    requires
        span_wf(data, start, end),
        index < start || index > end,
    ensures
        spec_get(data, start, index) == Err::<V, VectorError>(VectorError::Indexing { index }),
{
}

/// Narrowing a well-formed container with its own bounds changes nothing:
/// the resulting view holds the same elements under the same span.
pub proof fn lemma_slice_identity<V>(data: Seq<V>, start: usize, end: usize)
    requires
        span_wf(data, start, end),
    ensures
        spec_slice(data, start, end, start, end) == Ok::<(Seq<V>, usize, usize), VectorError>(
            (data, start, end),
        ),
{
    assert(data.subrange(0, data.len() as int) =~= data);
}

/// Narrowing is monotone.  After a successful narrowing to `[a, b]`, a
/// further ordered request `[c, d]` succeeds exactly when `a <= c <= d <= b`;
/// on success it equals narrowing the original container directly, and on
/// failure it reports an indexing error naming `c` when `c` undershoots and
/// `d` otherwise.
pub proof fn lemma_slice_monotone<V>(
    data: Seq<V>,
    start: usize,
    end: usize,
    a: usize,
    b: usize,
    c: usize,
    d: usize,
)
    requires
        span_wf(data, start, end),
        start <= a <= b <= end,
        c <= d,
    ensures
        spec_slice(data, start, end, a, b) == Ok::<(Seq<V>, usize, usize), VectorError>(
            (data.subrange(a - start, b - start + 1), a, b),
        ),
        spec_slice(data.subrange(a - start, b - start + 1), a, b, c, d) is Ok <==> a <= c && d
            <= b,
        a <= c && d <= b ==> spec_slice(data.subrange(a - start, b - start + 1), a, b, c, d)
            == spec_slice(data, start, end, c, d),
        c < a || d > b ==> spec_slice(data.subrange(a - start, b - start + 1), a, b, c, d)
            == Err::<(Seq<V>, usize, usize), VectorError>(
            VectorError::Indexing { index: if c < a { c } else { d } },
        ),
{
    let inner = data.subrange(a - start, b - start + 1);
    if a <= c && d <= b {
        assert(inner.subrange(c - a, d - a + 1) =~= data.subrange(c - start, d - start + 1));
    }
}

/// Builds the backing store for the filled constructors: `len` copies of
/// `value`.
pub(crate) fn repeat_value<V: Copy>(value: V, len: usize) -> (r: Vec<V>)
    ensures
        r@.len() == len,
        forall|j: int| 0 <= j < len ==> r@[j] == value,
{
    let mut data: Vec<V> = Vec::with_capacity(len);
    let mut i: usize = 0;
    while i < len
        invariant
            i <= len,
            data@.len() == i,
            forall|j: int| 0 <= j < i ==> data@[j] == value,
        decreases len - i,
    {
        data.push(value);
        i = i + 1;
    }
    data
}

} // verus!
