//! The marker trait that restricts the element types of the offset-indexed
//! vectors to small copyable scalars.

use vstd::prelude::*;

verus! {

/// Helper trait to only allow small copyable scalars in
/// [`OwnedVector`](crate::OwnedVector) and
/// [`BorrowedVector`](crate::BorrowedVector).
///
/// No special requirements except [`Copy`].  It is implemented for the basic
/// integer types.
pub trait Vectorable: Copy {

}

impl Vectorable for i128 {

}

impl Vectorable for i64 {

}

impl Vectorable for i32 {

}

impl Vectorable for i16 {

}

impl Vectorable for i8 {

}

impl Vectorable for isize {

}

impl Vectorable for u128 {

}

impl Vectorable for u64 {

}

impl Vectorable for u32 {

}

impl Vectorable for u16 {

}

impl Vectorable for u8 {

}

impl Vectorable for usize {

}

} // verus!
