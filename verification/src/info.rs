//! The metadata of the fallback-overlay vector: an inclusive span together
//! with the two fallback values returned for reads outside it.

use vstd::prelude::*;

verus! {

/// A struct for handling the metadata of a [`Vector`](crate::Vector).
#[derive(Debug, Copy, Clone)]
pub struct Info<T: Copy> {
    /// The start of the vector.
    start: usize,
    /// The end of the vector.
    end: usize,
    /// The fallback value when the index is smaller than start.
    fallback_start: T,
    /// The fallback value when the index is larger than end.
    fallback_end: T,
}

impl<T: Copy> Info<T> {
    /// The first index covered by the span.
    pub closed spec fn spec_start(&self) -> usize {
        self.start
    }

    /// The last index covered by the span.
    pub closed spec fn spec_end(&self) -> usize {
        self.end
    }

    /// The value substituted for reads below the span.
    pub closed spec fn spec_fallback_start(&self) -> T {
        self.fallback_start
    }

    /// The value substituted for reads above the span.
    pub closed spec fn spec_fallback_end(&self) -> T {
        self.fallback_end
    }

    /// The invariant the constructors establish: the span is ordered.
    pub open spec fn wf(&self) -> bool {
        self.spec_start() <= self.spec_end()
    }

    /// The mathematical length of the span, `end - start + 1`.
    pub open spec fn spec_len(&self) -> int {
        self.spec_end() - self.spec_start() + 1
    }

    /// The span length fits the machine word, so the backing store of a
    /// matching vector can exist.
    pub open spec fn len_in_bounds(&self) -> bool {
        self.spec_len() <= usize::MAX
    }

    /// Creates a new [`Info`] instance.
    ///
    /// This will return an [`InfoError`] if the `end` is smaller than the
    /// `start`.
    pub fn new(start: usize, end: usize, fallback_start: T, fallback_end: T) -> (r: Result<
        Self,
        InfoError,
    >)
        ensures
            start > end ==> r == Err::<Self, InfoError>(InfoError::InvalidInterval { start, end }),
            start <= end ==> (r matches Ok(info) && info.spec_start() == start && info.spec_end()
                == end && info.spec_fallback_start() == fallback_start && info.spec_fallback_end()
                == fallback_end && info.wf()),
    {
        match InfoError::check_interval(start, end) {
            Err(e) => {
                return Err(e);
            },
            Ok(()) => {},
        }
        Ok(Self { start, end, fallback_start, fallback_end })
    }

    /// Creates a new [`Info`] instance, where
    /// `fallback_start = fallback_end = fallback`.
    ///
    /// This will return an [`InfoError`] if the `end` is smaller than the
    /// `start`.
    pub fn new_single_fallback(start: usize, end: usize, fallback: T) -> (r: Result<
        Self,
        InfoError,
    >)
        ensures
            start > end ==> r == Err::<Self, InfoError>(InfoError::InvalidInterval { start, end }),
            start <= end ==> (r matches Ok(info) && info.spec_start() == start && info.spec_end()
                == end && info.spec_fallback_start() == fallback && info.spec_fallback_end()
                == fallback && info.wf()),
    {
        match InfoError::check_interval(start, end) {
            Err(e) => {
                return Err(e);
            },
            Ok(()) => {},
        }
        Ok(Self { start, end, fallback_start: fallback, fallback_end: fallback })
    }

    /// Returns the length, `end - start + 1`.
    pub fn len(&self) -> (r: usize)
        requires
            self.wf(),
            self.len_in_bounds(),
        ensures
            r == self.spec_len(),
    {
        self.end - self.start + 1
    }

    /// Returns the `start` index.
    pub fn start(&self) -> (r: usize)
        ensures
            r == self.spec_start(),
    {
        self.start
    }

    /// Returns the `end` index.
    pub fn end(&self) -> (r: usize)
        ensures
            r == self.spec_end(),
    {
        self.end
    }

    /// Returns the `fallback_start` value, returned when indexing below
    /// `start`.
    pub fn fallback_start(&self) -> (r: T)
        ensures
            r == self.spec_fallback_start(),
    {
        self.fallback_start
    }

    /// Returns the `fallback_end` value, returned when indexing beyond
    /// `end`.
    pub fn fallback_end(&self) -> (r: T)
        ensures
            r == self.spec_fallback_end(),
    {
        self.fallback_end
    }

    /// Two [`Info`] values that agree on the span and on both fallback
    /// values are one and the same.
    pub proof fn lemma_info_extensional(a: Self, b: Self)
        requires
            a.spec_start() == b.spec_start(),
            a.spec_end() == b.spec_end(),
            a.spec_fallback_start() == b.spec_fallback_start(),
            a.spec_fallback_end() == b.spec_fallback_end(),
        ensures
            a == b,
    {
    }
}

/// An enum for handling errors involving the [`Info`] struct.
#[derive(Debug, Copy, Clone, PartialEq, Eq, Structural)]
pub enum InfoError {
    /// The `end` index is smaller than the `start` index.
    InvalidInterval { start: usize, end: usize },
}

impl InfoError {
    /// Checks if the `start` is smaller than or equal to the `end`.
    pub fn check_interval(start: usize, end: usize) -> (r: Result<(), InfoError>)
        ensures
            start <= end ==> r == Ok::<(), InfoError>(()),
            start > end ==> r == Err::<(), InfoError>(InfoError::InvalidInterval { start, end }),
    {
        if start <= end {
            Ok(())
        } else {
            Err(InfoError::InvalidInterval { start, end })
        }
    }
}

} // verus!
