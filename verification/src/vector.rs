//! The fallback-overlay vector: reads outside the span substitute the
//! fallback values carried by the [`Info`] metadata instead of failing, so
//! read-indexing is a total function over the whole index type.  Elementwise
//! arithmetic between two such vectors is gated on exact metadata equality.

use vstd::prelude::*;

use crate::elementwise::{
    add_fits, div_ok, div_scalar_ok, div_trunc, lemma_div_trunc_fits, lemma_seq_add_commutative,
    mul_fits, mul_scalar_fits, neg_fits, seq_add, seq_div, seq_div_scalar, seq_mul,
    seq_mul_scalar, seq_neg, seq_sub, sub_fits,
};
use crate::info::Info;
use crate::offset::repeat_value;

verus! {

/// A struct for simplifying and hardening the use of [`Vec`]tors: the
/// stored elements are addressed through the inclusive span of an [`Info`],
/// and reads outside that span return its fallback values.
#[derive(Debug, Clone)]
pub struct Vector<T: Copy> {
    data: Vec<T>,
    info: Info<T>,
}

/// Two [`Info`] values cover the same interval: equal `start` and equal
/// `end`.
pub open spec fn interval_compatible<T: Copy>(a: Info<T>, b: Info<T>) -> bool {
    a.spec_start() == b.spec_start() && a.spec_end() == b.spec_end()
}

/// Two [`Info`] values carry the same fallback pair.
pub open spec fn fallback_compatible<T: Copy>(a: Info<T>, b: Info<T>) -> bool {
    a.spec_fallback_start() == b.spec_fallback_start() && a.spec_fallback_end()
        == b.spec_fallback_end()
}

impl<T: Copy> Vector<T> {
    /// The stored elements in storage order.
    pub closed spec fn spec_data(&self) -> Seq<T> {
        self.data@
    }

    /// The metadata the vector is addressed through.
    pub closed spec fn spec_info(&self) -> Info<T> {
        self.info
    }

    /// The invariant of a usable vector: the span is ordered, its length
    /// fits the machine word, and the backing store holds exactly one
    /// element per index of the span.
    pub open spec fn wf(&self) -> bool {
        self.spec_info().wf() && self.spec_info().len_in_bounds() && self.spec_data().len()
            == self.spec_info().spec_len()
    }

    /// What a read returns for any index whatsoever: the fallback for
    /// indices below the span, the fallback for indices above it, and the
    /// stored element at `index - start` inside it.
    pub open spec fn spec_index(&self, index: usize) -> T {
        if index < self.spec_info().spec_start() {
            self.spec_info().spec_fallback_start()
        } else if index > self.spec_info().spec_end() {
            self.spec_info().spec_fallback_end()
        } else {
            self.spec_data()[index - self.spec_info().spec_start()]
        }
    }

    /// Creates a new [`Vector`] instance with all entries set to a given
    /// `value`, one per index of the span of the [`Info`].
    pub fn with_value(value: T, info: Info<T>) -> (r: Self)
        requires
            info.wf(),
            info.len_in_bounds(),
        ensures
            r.spec_info() == info,
            r.wf(),
            r.spec_data() == Seq::new(info.spec_len() as nat, |j: int| value),
    {
        let data: Vec<T> = repeat_value(value, info.len());
        proof {
            assert(data@ =~= Seq::new(info.spec_len() as nat, |j: int| value));
        }
        Self { data, info }
    }

    /// Creates a new [`Vector`] based on a given [`Vec`].
    ///
    /// The lengths of the data and the provided [`Info`] instance must be
    /// the same.
    pub fn from_data(data: Vec<T>, info: Info<T>) -> (r: Result<Self, VectorError>)
        requires
            info.wf(),
            info.len_in_bounds(),
        ensures
            data@.len() == info.spec_len() ==> (r matches Ok(v) && v.spec_data() == data@
                && v.spec_info() == info && v.wf()),
            data@.len() != info.spec_len() ==> (r matches Err(e) && e matches
                VectorError::InvalidLength { vector_length, info_length } && vector_length
                == data@.len() && info_length == info.spec_len()),
    {
        match VectorError::check_length(&data, &info) {
            Err(e) => {
                return Err(e);
            },
            Ok(()) => {},
        }
        Ok(Self { data, info })
    }

    /// Returns the length of the span of the [`Info`].
    pub fn len(&self) -> (r: usize)
        requires
            self.wf(),
        ensures
            r == self.spec_info().spec_len(),
    {
        self.info.len()
    }

    /// Returns the start index.
    pub fn start(&self) -> (r: usize)
        ensures
            r == self.spec_info().spec_start(),
    {
        self.info.start()
    }

    /// Returns the end index.
    pub fn end(&self) -> (r: usize)
        ensures
            r == self.spec_info().spec_end(),
    {
        self.info.end()
    }

    /// Returns a reference to the [`Info`].
    pub fn info(&self) -> (r: &Info<T>)
        ensures
            *r == self.spec_info(),
    {
        &self.info
    }

    /// Returns a mutable reference to the value at a specific `index` if
    /// this value is present; indices outside the span have no stored value
    /// and yield nothing, leaving the vector unchanged.
    pub fn get_mut(&mut self, index: usize) -> (r: Option<&mut T>)
        requires
            old(self).wf(),
        ensures
            old(self).spec_info().spec_start() <= index <= old(self).spec_info().spec_end() ==> (
            r matches Some(p)
                && *p == old(self).spec_data()[index - old(self).spec_info().spec_start()]
                && final(self).spec_data() == old(self).spec_data().update(
                    index - old(self).spec_info().spec_start(),
                    *final(p),
                )
                && final(self).spec_info() == old(self).spec_info()
                && final(self).wf()),
            !(old(self).spec_info().spec_start() <= index <= old(self).spec_info().spec_end())
                ==> r is None && *final(self) == *old(self),
    {
        let start = self.info.start();
        let end = self.info.end();
        if index >= start && index <= end {
            let internal_index = index - start;
            Some(&mut self.data[internal_index])
        } else {
            None
        }
    }

    /// Returns the value at a specific index based on the indexing from the
    /// [`Info`].
    ///
    /// For indices outside the span this returns the fallback values, so it
    /// never fails; inside the span it does the shifting automatically.
    pub fn index(&self, index: usize) -> (r: T)
        requires
            self.wf(),
        ensures
            r == self.spec_index(index),
    {
        let start = self.info.start();
        let end = self.info.end();
        if index < start {
            self.info.fallback_start()
        } else if index > end {
            self.info.fallback_end()
        } else {
            let internal_index = index - start;
            self.data[internal_index]
        }
    }

    /// Writes `value` at a specific index based on the indexing from the
    /// [`Info`].
    ///
    /// An index outside the span has no stored slot to write into (the
    /// fallback values are read-only substitutes), so such indices are
    /// excluded here.
    pub fn set(&mut self, index: usize, value: T)
        requires
            old(self).wf(),
            old(self).spec_info().spec_start() <= index <= old(self).spec_info().spec_end(),
        ensures
            final(self).spec_data() == old(self).spec_data().update(
                index - old(self).spec_info().spec_start(),
                value,
            ),
            final(self).spec_info() == old(self).spec_info(),
            final(self).wf(),
    {
        let start = self.info.start();
        let internal_index = index - start;
        self.data.set(internal_index, value);
    }

    /// Returns copies of the stored elements in storage order.
    pub fn iter(&self) -> (r: Vec<T>)
        ensures
            r@ == self.spec_data(),
    {
        vstd::slice::slice_to_vec(self.data.as_slice())
    }
}

impl<T: Copy + Default> Vector<T> {
    /// Creates a new [`Vector`] instance based on the [`Info`] given, with
    /// every slot of the span holding the element type's default value.
    ///
    /// The backing store is allocated in one step and filled to the span's
    /// length, so the length invariant holds from the start.
    pub fn with_capacity(info: Info<T>) -> (r: Self)
        requires
            info.wf(),
            info.len_in_bounds(),
        ensures
            r.spec_info() == info,
            r.wf(),
            forall|j: int|
                0 <= j < r.spec_data().len() ==> call_ensures(
                    T::default,
                    (),
                    #[trigger] r.spec_data()[j],
                ),
    {
        let value = T::default();
        let data: Vec<T> = repeat_value(value, info.len());
        Self { data, info }
    }
}

/// An enum for handling errors involving the [`Vector`] struct.
#[derive(Debug, Copy, Clone, PartialEq, Eq, Structural)]
pub enum VectorError {
    /// The `start`s or `end`s of the two [`Info`]s are not the same.
    IncompatibleInterval { start_1: usize, end_1: usize, start_2: usize, end_2: usize },
    /// The length of the data is not equal to the length of the [`Info`].
    InvalidLength { vector_length: usize, info_length: usize },
    /// The `fallback_start`s or `fallback_end`s of the two [`Info`]s are
    /// not the same.
    IncompatibleFallback,
}

impl VectorError {
    /// Checks if two [`Info`]s have the same `start` and `end` parameters.
    fn check_interval<T: Copy>(info_1: &Info<T>, info_2: &Info<T>) -> (r: Result<(), Self>)
        ensures
            interval_compatible(*info_1, *info_2) ==> r == Ok::<(), VectorError>(()),
            !interval_compatible(*info_1, *info_2) ==> r == Err::<(), VectorError>(
                VectorError::IncompatibleInterval {
                    start_1: info_1.spec_start(),
                    end_1: info_1.spec_end(),
                    start_2: info_2.spec_start(),
                    end_2: info_2.spec_end(),
                },
            ),
    {
        if info_1.start() == info_2.start() && info_1.end() == info_2.end() {
            Ok(())
        } else {
            Err(Self::IncompatibleInterval {
                start_1: info_1.start(),
                end_1: info_1.end(),
                start_2: info_2.start(),
                end_2: info_2.end(),
            })
        }
    }

    /// Checks if a [`Vec`] and an [`Info`] have the same length.
    fn check_length<T: Copy>(vector: &Vec<T>, info: &Info<T>) -> (r: Result<(), Self>)
        requires
            info.wf(),
            info.len_in_bounds(),
        ensures
            vector@.len() == info.spec_len() ==> r == Ok::<(), VectorError>(()),
            vector@.len() != info.spec_len() ==> (r matches Err(e) && e matches
                VectorError::InvalidLength { vector_length, info_length } && vector_length
                == vector@.len() && info_length == info.spec_len()),
    {
        if vector.len() == info.len() {
            Ok(())
        } else {
            Err(Self::InvalidLength { vector_length: vector.len(), info_length: info.len() })
        }
    }

    /// Checks if two [`Info`]s have the same `fallback_start` and
    /// `fallback_end` parameters.
    fn check_fallback(info_1: &Info<i64>, info_2: &Info<i64>) -> (r: Result<(), Self>)
        ensures
            fallback_compatible(*info_1, *info_2) ==> r == Ok::<(), VectorError>(()),
            !fallback_compatible(*info_1, *info_2) ==> r == Err::<(), VectorError>(
                VectorError::IncompatibleFallback,
            ),
    {
        if info_1.fallback_start() == info_2.fallback_start() && info_1.fallback_end()
            == info_2.fallback_end() {
            Ok(())
        } else {
            Err(Self::IncompatibleFallback)
        }
    }
}

impl Vector<i64> {
    /// Tries to add `other` elementwise onto `self` in place.
    ///
    /// This returns an error, leaving `self` untouched, when the two
    /// [`Info`]s are not compatible in span or in fallback values.
    pub fn try_add_assign(&mut self, other: &Vector<i64>) -> (r: Result<(), VectorError>)
        requires
            old(self).wf(),
            other.wf(),
            interval_compatible(old(self).spec_info(), other.spec_info()) && fallback_compatible(
                old(self).spec_info(),
                other.spec_info(),
            ) ==> add_fits(old(self).spec_data(), other.spec_data()),
        ensures
            !interval_compatible(old(self).spec_info(), other.spec_info()) ==> (r matches Err(e)
                && *final(self) == *old(self) && e == (VectorError::IncompatibleInterval {
                start_1: old(self).spec_info().spec_start(),
                end_1: old(self).spec_info().spec_end(),
                start_2: other.spec_info().spec_start(),
                end_2: other.spec_info().spec_end(),
            })),
            interval_compatible(old(self).spec_info(), other.spec_info())
                && !fallback_compatible(old(self).spec_info(), other.spec_info()) ==> (*final(self)
                == *old(self) && r == Err::<(), VectorError>(VectorError::IncompatibleFallback)),
            interval_compatible(old(self).spec_info(), other.spec_info()) && fallback_compatible(
                old(self).spec_info(),
                other.spec_info(),
            ) ==> (r == Ok::<(), VectorError>(()) && final(self).spec_data() == seq_add(
                old(self).spec_data(),
                other.spec_data(),
            ) && final(self).spec_info() == old(self).spec_info() && final(self).wf()),
    {
        match VectorError::check_interval(&self.info, &other.info) {
            Err(e) => {
                return Err(e);
            },
            Ok(()) => {},
        }
        match VectorError::check_fallback(&self.info, &other.info) {
            Err(e) => {
                return Err(e);
            },
            Ok(()) => {},
        }
        let n = self.data.len();
        let mut j: usize = 0;
        while j < n
            invariant
                n == old(self).spec_data().len(),
                other.spec_data().len() == n,
                self.spec_data().len() == n,
                j <= n,
                self.spec_info() == old(self).spec_info(),
                add_fits(old(self).spec_data(), other.spec_data()),
                forall|k: int|
                    0 <= k < j ==> self.spec_data()[k] == (old(self).spec_data()[k]
                        + other.spec_data()[k]) as i64,
                forall|k: int| j <= k < n ==> self.spec_data()[k] == old(self).spec_data()[k],
            decreases n - j,
        {
            let sum = self.data[j] + other.data[j];
            self.data.set(j, sum);
            j = j + 1;
        }
        proof {
            assert(self.spec_data() =~= seq_add(old(self).spec_data(), other.spec_data()));
        }
        Ok(())
    }

    /// Tries to subtract `other` elementwise from `self` in place.
    ///
    /// This returns an error, leaving `self` untouched, when the two
    /// [`Info`]s are not compatible in span or in fallback values.
    pub fn try_sub_assign(&mut self, other: &Vector<i64>) -> (r: Result<(), VectorError>)
        requires
            old(self).wf(),
            other.wf(),
            interval_compatible(old(self).spec_info(), other.spec_info()) && fallback_compatible(
                old(self).spec_info(),
                other.spec_info(),
            ) ==> sub_fits(old(self).spec_data(), other.spec_data()),
        ensures
            !interval_compatible(old(self).spec_info(), other.spec_info()) ==> (r matches Err(e)
                && *final(self) == *old(self) && e == (VectorError::IncompatibleInterval {
                start_1: old(self).spec_info().spec_start(),
                end_1: old(self).spec_info().spec_end(),
                start_2: other.spec_info().spec_start(),
                end_2: other.spec_info().spec_end(),
            })),
            interval_compatible(old(self).spec_info(), other.spec_info())
                && !fallback_compatible(old(self).spec_info(), other.spec_info()) ==> (*final(self)
                == *old(self) && r == Err::<(), VectorError>(VectorError::IncompatibleFallback)),
            interval_compatible(old(self).spec_info(), other.spec_info()) && fallback_compatible(
                old(self).spec_info(),
                other.spec_info(),
            ) ==> (r == Ok::<(), VectorError>(()) && final(self).spec_data() == seq_sub(
                old(self).spec_data(),
                other.spec_data(),
            ) && final(self).spec_info() == old(self).spec_info() && final(self).wf()),
    {
        match VectorError::check_interval(&self.info, &other.info) {
            Err(e) => {
                return Err(e);
            },
            Ok(()) => {},
        }
        match VectorError::check_fallback(&self.info, &other.info) {
            Err(e) => {
                return Err(e);
            },
            Ok(()) => {},
        }
        let n = self.data.len();
        let mut j: usize = 0;
        while j < n
            invariant
                n == old(self).spec_data().len(),
                other.spec_data().len() == n,
                self.spec_data().len() == n,
                j <= n,
                self.spec_info() == old(self).spec_info(),
                sub_fits(old(self).spec_data(), other.spec_data()),
                forall|k: int|
                    0 <= k < j ==> self.spec_data()[k] == (old(self).spec_data()[k]
                        - other.spec_data()[k]) as i64,
                forall|k: int| j <= k < n ==> self.spec_data()[k] == old(self).spec_data()[k],
            decreases n - j,
        {
            let difference = self.data[j] - other.data[j];
            self.data.set(j, difference);
            j = j + 1;
        }
        proof {
            assert(self.spec_data() =~= seq_sub(old(self).spec_data(), other.spec_data()));
        }
        Ok(())
    }

    /// Tries to multiply `self` elementwise by `other` in place.
    ///
    /// This returns an error, leaving `self` untouched, when the two
    /// [`Info`]s are not compatible in span or in fallback values.
    pub fn try_mul_assign(&mut self, other: &Vector<i64>) -> (r: Result<(), VectorError>)
        requires
            old(self).wf(),
            other.wf(),
            interval_compatible(old(self).spec_info(), other.spec_info()) && fallback_compatible(
                old(self).spec_info(),
                other.spec_info(),
            ) ==> mul_fits(old(self).spec_data(), other.spec_data()),
        ensures
            !interval_compatible(old(self).spec_info(), other.spec_info()) ==> (r matches Err(e)
                && *final(self) == *old(self) && e == (VectorError::IncompatibleInterval {
                start_1: old(self).spec_info().spec_start(),
                end_1: old(self).spec_info().spec_end(),
                start_2: other.spec_info().spec_start(),
                end_2: other.spec_info().spec_end(),
            })),
            interval_compatible(old(self).spec_info(), other.spec_info())
                && !fallback_compatible(old(self).spec_info(), other.spec_info()) ==> (*final(self)
                == *old(self) && r == Err::<(), VectorError>(VectorError::IncompatibleFallback)),
            interval_compatible(old(self).spec_info(), other.spec_info()) && fallback_compatible(
                old(self).spec_info(),
                other.spec_info(),
            ) ==> (r == Ok::<(), VectorError>(()) && final(self).spec_data() == seq_mul(
                old(self).spec_data(),
                other.spec_data(),
            ) && final(self).spec_info() == old(self).spec_info() && final(self).wf()),
    {
        match VectorError::check_interval(&self.info, &other.info) {
            Err(e) => {
                return Err(e);
            },
            Ok(()) => {},
        }
        match VectorError::check_fallback(&self.info, &other.info) {
            Err(e) => {
                return Err(e);
            },
            Ok(()) => {},
        }
        let n = self.data.len();
        let mut j: usize = 0;
        while j < n
            invariant
                n == old(self).spec_data().len(),
                other.spec_data().len() == n,
                self.spec_data().len() == n,
                j <= n,
                self.spec_info() == old(self).spec_info(),
                mul_fits(old(self).spec_data(), other.spec_data()),
                forall|k: int|
                    0 <= k < j ==> self.spec_data()[k] == (old(self).spec_data()[k]
                        * other.spec_data()[k]) as i64,
                forall|k: int| j <= k < n ==> self.spec_data()[k] == old(self).spec_data()[k],
            decreases n - j,
        {
            let product = self.data[j] * other.data[j];
            self.data.set(j, product);
            j = j + 1;
        }
        proof {
            assert(self.spec_data() =~= seq_mul(old(self).spec_data(), other.spec_data()));
        }
        Ok(())
    }

    /// Tries to divide `self` elementwise by `other` in place, truncating
    /// towards zero.
    ///
    /// This returns an error, leaving `self` untouched, when the two
    /// [`Info`]s are not compatible in span or in fallback values.
    pub fn try_div_assign(&mut self, other: &Vector<i64>) -> (r: Result<(), VectorError>)
        requires
            old(self).wf(),
            other.wf(),
            interval_compatible(old(self).spec_info(), other.spec_info()) && fallback_compatible(
                old(self).spec_info(),
                other.spec_info(),
            ) ==> div_ok(old(self).spec_data(), other.spec_data()),
        ensures
            !interval_compatible(old(self).spec_info(), other.spec_info()) ==> (r matches Err(e)
                && *final(self) == *old(self) && e == (VectorError::IncompatibleInterval {
                start_1: old(self).spec_info().spec_start(),
                end_1: old(self).spec_info().spec_end(),
                start_2: other.spec_info().spec_start(),
                end_2: other.spec_info().spec_end(),
            })),
            interval_compatible(old(self).spec_info(), other.spec_info())
                && !fallback_compatible(old(self).spec_info(), other.spec_info()) ==> (*final(self)
                == *old(self) && r == Err::<(), VectorError>(VectorError::IncompatibleFallback)),
            interval_compatible(old(self).spec_info(), other.spec_info()) && fallback_compatible(
                old(self).spec_info(),
                other.spec_info(),
            ) ==> (r == Ok::<(), VectorError>(()) && final(self).spec_data() == seq_div(
                old(self).spec_data(),
                other.spec_data(),
            ) && final(self).spec_info() == old(self).spec_info() && final(self).wf()),
    {
        match VectorError::check_interval(&self.info, &other.info) {
            Err(e) => {
                return Err(e);
            },
            Ok(()) => {},
        }
        match VectorError::check_fallback(&self.info, &other.info) {
            Err(e) => {
                return Err(e);
            },
            Ok(()) => {},
        }
        let n = self.data.len();
        let mut j: usize = 0;
        while j < n
            invariant
                n == old(self).spec_data().len(),
                other.spec_data().len() == n,
                self.spec_data().len() == n,
                j <= n,
                self.spec_info() == old(self).spec_info(),
                div_ok(old(self).spec_data(), other.spec_data()),
                forall|k: int|
                    0 <= k < j ==> self.spec_data()[k] == div_trunc(
                        old(self).spec_data()[k],
                        other.spec_data()[k],
                    ) as i64,
                forall|k: int| j <= k < n ==> self.spec_data()[k] == old(self).spec_data()[k],
            decreases n - j,
        {
            let numerator = self.data[j];
            let denominator = other.data[j];
            proof {
                lemma_div_trunc_fits(numerator, denominator);
            }
            let quotient = match numerator.checked_div(denominator) {
                Some(v) => v,
                None => 0,
            };
            self.data.set(j, quotient);
            j = j + 1;
        }
        proof {
            assert(self.spec_data() =~= seq_div(old(self).spec_data(), other.spec_data()));
        }
        Ok(())
    }

    /// Elementwise addition into a fresh vector carrying `self`'s metadata.
    ///
    /// This returns an error if the [`Info`] instances are incompatible.
    pub fn add(&self, other: &Vector<i64>) -> (r: Result<Vector<i64>, VectorError>)
        requires
            self.wf(),
            other.wf(),
            interval_compatible(self.spec_info(), other.spec_info()) && fallback_compatible(
                self.spec_info(),
                other.spec_info(),
            ) ==> add_fits(self.spec_data(), other.spec_data()),
        ensures
            !interval_compatible(self.spec_info(), other.spec_info()) ==> (r matches Err(e) && e
                == (VectorError::IncompatibleInterval {
                start_1: self.spec_info().spec_start(),
                end_1: self.spec_info().spec_end(),
                start_2: other.spec_info().spec_start(),
                end_2: other.spec_info().spec_end(),
            })),
            interval_compatible(self.spec_info(), other.spec_info()) && !fallback_compatible(
                self.spec_info(),
                other.spec_info(),
            ) ==> (r matches Err(e) && e == VectorError::IncompatibleFallback),
            interval_compatible(self.spec_info(), other.spec_info()) && fallback_compatible(
                self.spec_info(),
                other.spec_info(),
            ) ==> (r matches Ok(v) && v.spec_data() == seq_add(
                self.spec_data(),
                other.spec_data(),
            ) && v.spec_info() == self.spec_info() && v.wf()),
    {
        match VectorError::check_interval(&self.info, &other.info) {
            Err(e) => {
                return Err(e);
            },
            Ok(()) => {},
        }
        match VectorError::check_fallback(&self.info, &other.info) {
            Err(e) => {
                return Err(e);
            },
            Ok(()) => {},
        }
        let n = self.data.len();
        let mut new_data: Vec<i64> = Vec::with_capacity(n);
        let mut j: usize = 0;
        while j < n
            invariant
                n == self.spec_data().len(),
                other.spec_data().len() == n,
                j <= n,
                new_data@.len() == j,
                add_fits(self.spec_data(), other.spec_data()),
                forall|k: int|
                    0 <= k < j ==> new_data@[k] == (self.spec_data()[k]
                        + other.spec_data()[k]) as i64,
            decreases n - j,
        {
            let sum = self.data[j] + other.data[j];
            new_data.push(sum);
            j = j + 1;
        }
        proof {
            assert(new_data@ =~= seq_add(self.spec_data(), other.spec_data()));
        }
        Ok(Vector { data: new_data, info: self.info })
    }

    /// Elementwise subtraction into a fresh vector carrying `self`'s
    /// metadata.
    ///
    /// This returns an error if the [`Info`] instances are incompatible.
    pub fn sub(&self, other: &Vector<i64>) -> (r: Result<Vector<i64>, VectorError>)
        requires
            self.wf(),
            other.wf(),
            interval_compatible(self.spec_info(), other.spec_info()) && fallback_compatible(
                self.spec_info(),
                other.spec_info(),
            ) ==> sub_fits(self.spec_data(), other.spec_data()),
        ensures
            !interval_compatible(self.spec_info(), other.spec_info()) ==> (r matches Err(e) && e
                == (VectorError::IncompatibleInterval {
                start_1: self.spec_info().spec_start(),
                end_1: self.spec_info().spec_end(),
                start_2: other.spec_info().spec_start(),
                end_2: other.spec_info().spec_end(),
            })),
            interval_compatible(self.spec_info(), other.spec_info()) && !fallback_compatible(
                self.spec_info(),
                other.spec_info(),
            ) ==> (r matches Err(e) && e == VectorError::IncompatibleFallback),
            interval_compatible(self.spec_info(), other.spec_info()) && fallback_compatible(
                self.spec_info(),
                other.spec_info(),
            ) ==> (r matches Ok(v) && v.spec_data() == seq_sub(
                self.spec_data(),
                other.spec_data(),
            ) && v.spec_info() == self.spec_info() && v.wf()),
    {
        match VectorError::check_interval(&self.info, &other.info) {
            Err(e) => {
                return Err(e);
            },
            Ok(()) => {},
        }
        match VectorError::check_fallback(&self.info, &other.info) {
            Err(e) => {
                return Err(e);
            },
            Ok(()) => {},
        }
        let n = self.data.len();
        let mut new_data: Vec<i64> = Vec::with_capacity(n);
        let mut j: usize = 0;
        while j < n
            invariant
                n == self.spec_data().len(),
                other.spec_data().len() == n,
                j <= n,
                new_data@.len() == j,
                sub_fits(self.spec_data(), other.spec_data()),
                forall|k: int|
                    0 <= k < j ==> new_data@[k] == (self.spec_data()[k]
                        - other.spec_data()[k]) as i64,
            decreases n - j,
        {
            let difference = self.data[j] - other.data[j];
            new_data.push(difference);
            j = j + 1;
        }
        proof {
            assert(new_data@ =~= seq_sub(self.spec_data(), other.spec_data()));
        }
        Ok(Vector { data: new_data, info: self.info })
    }

    /// Elementwise negation into a fresh vector carrying `self`'s metadata.
    ///
    /// This is unconditional apart from the one negation the element type
    /// cannot represent, which is excluded here.
    pub fn neg(&self) -> (r: Vector<i64>)
        requires
            self.wf(),
            neg_fits(self.spec_data()),
        ensures
            r.spec_data() == seq_neg(self.spec_data()),
            r.spec_info() == self.spec_info(),
            r.wf(),
    {
        let n = self.data.len();
        let mut new_data: Vec<i64> = Vec::with_capacity(n);
        let mut j: usize = 0;
        while j < n
            invariant
                n == self.spec_data().len(),
                j <= n,
                new_data@.len() == j,
                neg_fits(self.spec_data()),
                forall|k: int| 0 <= k < j ==> new_data@[k] == (-self.spec_data()[k]) as i64,
            decreases n - j,
        {
            let negated = -self.data[j];
            new_data.push(negated);
            j = j + 1;
        }
        proof {
            assert(new_data@ =~= seq_neg(self.spec_data()));
        }
        Vector { data: new_data, info: self.info }
    }

    /// Elementwise multiplication into a fresh vector carrying `self`'s
    /// metadata.
    ///
    /// This returns an error if the [`Info`] instances are incompatible.
    pub fn mul(&self, other: &Vector<i64>) -> (r: Result<Vector<i64>, VectorError>)
        requires
            self.wf(),
            other.wf(),
            interval_compatible(self.spec_info(), other.spec_info()) && fallback_compatible(
                self.spec_info(),
                other.spec_info(),
            ) ==> mul_fits(self.spec_data(), other.spec_data()),
        ensures
            !interval_compatible(self.spec_info(), other.spec_info()) ==> (r matches Err(e) && e
                == (VectorError::IncompatibleInterval {
                start_1: self.spec_info().spec_start(),
                end_1: self.spec_info().spec_end(),
                start_2: other.spec_info().spec_start(),
                end_2: other.spec_info().spec_end(),
            })),
            interval_compatible(self.spec_info(), other.spec_info()) && !fallback_compatible(
                self.spec_info(),
                other.spec_info(),
            ) ==> (r matches Err(e) && e == VectorError::IncompatibleFallback),
            interval_compatible(self.spec_info(), other.spec_info()) && fallback_compatible(
                self.spec_info(),
                other.spec_info(),
            ) ==> (r matches Ok(v) && v.spec_data() == seq_mul(
                self.spec_data(),
                other.spec_data(),
            ) && v.spec_info() == self.spec_info() && v.wf()),
    {
        match VectorError::check_interval(&self.info, &other.info) {
            Err(e) => {
                return Err(e);
            },
            Ok(()) => {},
        }
        match VectorError::check_fallback(&self.info, &other.info) {
            Err(e) => {
                return Err(e);
            },
            Ok(()) => {},
        }
        let n = self.data.len();
        let mut new_data: Vec<i64> = Vec::with_capacity(n);
        let mut j: usize = 0;
        while j < n
            invariant
                n == self.spec_data().len(),
                other.spec_data().len() == n,
                j <= n,
                new_data@.len() == j,
                mul_fits(self.spec_data(), other.spec_data()),
                forall|k: int|
                    0 <= k < j ==> new_data@[k] == (self.spec_data()[k]
                        * other.spec_data()[k]) as i64,
            decreases n - j,
        {
            let product = self.data[j] * other.data[j];
            new_data.push(product);
            j = j + 1;
        }
        proof {
            assert(new_data@ =~= seq_mul(self.spec_data(), other.spec_data()));
        }
        Ok(Vector { data: new_data, info: self.info })
    }

    /// Elementwise division, truncating towards zero, into a fresh vector
    /// carrying `self`'s metadata.
    ///
    /// This returns an error if the [`Info`] instances are incompatible.
    pub fn div(&self, other: &Vector<i64>) -> (r: Result<Vector<i64>, VectorError>)
        requires
            self.wf(),
            other.wf(),
            interval_compatible(self.spec_info(), other.spec_info()) && fallback_compatible(
                self.spec_info(),
                other.spec_info(),
            ) ==> div_ok(self.spec_data(), other.spec_data()),
        ensures
            !interval_compatible(self.spec_info(), other.spec_info()) ==> (r matches Err(e) && e
                == (VectorError::IncompatibleInterval {
                start_1: self.spec_info().spec_start(),
                end_1: self.spec_info().spec_end(),
                start_2: other.spec_info().spec_start(),
                end_2: other.spec_info().spec_end(),
            })),
            interval_compatible(self.spec_info(), other.spec_info()) && !fallback_compatible(
                self.spec_info(),
                other.spec_info(),
            ) ==> (r matches Err(e) && e == VectorError::IncompatibleFallback),
            interval_compatible(self.spec_info(), other.spec_info()) && fallback_compatible(
                self.spec_info(),
                other.spec_info(),
            ) ==> (r matches Ok(v) && v.spec_data() == seq_div(
                self.spec_data(),
                other.spec_data(),
            ) && v.spec_info() == self.spec_info() && v.wf()),
    {
        match VectorError::check_interval(&self.info, &other.info) {
            Err(e) => {
                return Err(e);
            },
            Ok(()) => {},
        }
        match VectorError::check_fallback(&self.info, &other.info) {
            Err(e) => {
                return Err(e);
            },
            Ok(()) => {},
        }
        let n = self.data.len();
        let mut new_data: Vec<i64> = Vec::with_capacity(n);
        let mut j: usize = 0;
        while j < n
            invariant
                n == self.spec_data().len(),
                other.spec_data().len() == n,
                j <= n,
                new_data@.len() == j,
                div_ok(self.spec_data(), other.spec_data()),
                forall|k: int|
                    0 <= k < j ==> new_data@[k] == div_trunc(
                        self.spec_data()[k],
                        other.spec_data()[k],
                    ) as i64,
            decreases n - j,
        {
            let numerator = self.data[j];
            let denominator = other.data[j];
            proof {
                lemma_div_trunc_fits(numerator, denominator);
            }
            let quotient = match numerator.checked_div(denominator) {
                Some(v) => v,
                None => 0,
            };
            new_data.push(quotient);
            j = j + 1;
        }
        proof {
            assert(new_data@ =~= seq_div(self.spec_data(), other.spec_data()));
        }
        Ok(Vector { data: new_data, info: self.info })
    }

    /// Scalar multiplication into a fresh vector carrying `self`'s
    /// metadata.  Unconditional apart from overflow, which is left to the
    /// caller and excluded here.
    pub fn mul_scalar(&self, factor: i64) -> (r: Vector<i64>)
        requires
            self.wf(),
            mul_scalar_fits(self.spec_data(), factor),
        ensures
            r.spec_data() == seq_mul_scalar(self.spec_data(), factor),
            r.spec_info() == self.spec_info(),
            r.wf(),
    {
        let n = self.data.len();
        let mut new_data: Vec<i64> = Vec::with_capacity(n);
        let mut j: usize = 0;
        while j < n
            invariant
                n == self.spec_data().len(),
                j <= n,
                new_data@.len() == j,
                mul_scalar_fits(self.spec_data(), factor),
                forall|k: int|
                    0 <= k < j ==> new_data@[k] == (self.spec_data()[k] * factor) as i64,
            decreases n - j,
        {
            let product = self.data[j] * factor;
            new_data.push(product);
            j = j + 1;
        }
        proof {
            assert(new_data@ =~= seq_mul_scalar(self.spec_data(), factor));
        }
        Vector { data: new_data, info: self.info }
    }

    /// Scalar division, truncating towards zero, into a fresh vector
    /// carrying `self`'s metadata.  Unconditional apart from the undefined
    /// divisions, which are left to the caller and excluded here.
    pub fn div_scalar(&self, divisor: i64) -> (r: Vector<i64>)
        requires
            self.wf(),
            div_scalar_ok(self.spec_data(), divisor),
        ensures
            r.spec_data() == seq_div_scalar(self.spec_data(), divisor),
            r.spec_info() == self.spec_info(),
            r.wf(),
    {
        let n = self.data.len();
        let mut new_data: Vec<i64> = Vec::with_capacity(n);
        let mut j: usize = 0;
        while j < n
            invariant
                n == self.spec_data().len(),
                j <= n,
                new_data@.len() == j,
                div_scalar_ok(self.spec_data(), divisor),
                forall|k: int|
                    0 <= k < j ==> new_data@[k] == div_trunc(self.spec_data()[k], divisor) as i64,
            decreases n - j,
        {
            let numerator = self.data[j];
            proof {
                lemma_div_trunc_fits(numerator, divisor);
            }
            let quotient = match numerator.checked_div(divisor) {
                Some(v) => v,
                None => 0,
            };
            new_data.push(quotient);
            j = j + 1;
        }
        proof {
            assert(new_data@ =~= seq_div_scalar(self.spec_data(), divisor));
        }
        Vector { data: new_data, info: self.info }
    }
}

/// Interval compatibility of two [`Info`] values is symmetric in its two
/// arguments: the check run before every paired elementwise operation
/// accepts or rejects the two operands in either order alike.
pub proof fn lemma_interval_compatible_symmetric<T: Copy>(a: Info<T>, b: Info<T>)
    ensures
        interval_compatible(a, b) == interval_compatible(b, a),
{
}

/// Fallback compatibility of two [`Info`] values is symmetric in its two
/// arguments, in the same way.
pub proof fn lemma_fallback_compatible_symmetric<T: Copy>(a: Info<T>, b: Info<T>)
    ensures
        fallback_compatible(a, b) == fallback_compatible(b, a),
{
}

/// Reads on the overlay vector are total and never touch the storage
/// outside the span: an index below the span returns the lower fallback and
/// an index above it the upper one, whatever is stored.
pub proof fn lemma_index_total<T: Copy>(v: Vector<T>, index: usize)
    requires
        v.spec_info().wf(),
    ensures
        index < v.spec_info().spec_start() ==> v.spec_index(index)
            == v.spec_info().spec_fallback_start(),
        index > v.spec_info().spec_end() ==> v.spec_index(index)
            == v.spec_info().spec_fallback_end(),
{
}

/// Writing a value at an in-span index and reading the same index back
/// returns exactly that value: the hypotheses are the postcondition of
/// [`Vector::set`], so they hold of any vector produced by it.
pub proof fn lemma_set_index_round_trip<T: Copy>(
    before: Vector<T>,
    after: Vector<T>,
    index: usize,
    value: T,
)
    requires
        before.wf(),
        before.spec_info().spec_start() <= index <= before.spec_info().spec_end(),
        after.spec_data() == before.spec_data().update(
            index - before.spec_info().spec_start(),
            value,
        ),
        after.spec_info() == before.spec_info(),
    ensures
        after.spec_index(index) == value,
{
}

/// Elementwise addition of two compatible, well-formed vectors is
/// commutative: the two orders of combination produce the same elements,
/// and since compatibility makes the two [`Info`]s one and the same value,
/// the resulting vectors are observationally equal.
pub proof fn lemma_add_commutative(u: Vector<i64>, v: Vector<i64>)
    requires
        u.wf(),
        v.wf(),
        interval_compatible(u.spec_info(), v.spec_info()),
        fallback_compatible(u.spec_info(), v.spec_info()),
    ensures
        seq_add(u.spec_data(), v.spec_data()) == seq_add(v.spec_data(), u.spec_data()),
        u.spec_info() == v.spec_info(),
{
    lemma_seq_add_commutative(u.spec_data(), v.spec_data());
    Info::lemma_info_extensional(u.spec_info(), v.spec_info());
}

} // verus!
