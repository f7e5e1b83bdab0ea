//! Offset-indexed vectors.
//!
//! A linear sequence is addressed by an arbitrary inclusive index range
//! `[start, end]` instead of the conventional `[0, len)`.  The crate keeps the
//! invariant "span length equals backing-store length" at every construction
//! and access boundary, offers an owning variant ([`OwnedVector`]) and a
//! borrowing variant ([`BorrowedVector`]) that behave identically for reads,
//! and a separate overlay family ([`Vector`] with [`Info`] metadata) whose
//! reads substitute fallback values instead of failing.

pub mod borrowed_vector;
pub mod elementwise;
pub mod info;
pub mod offset;
pub mod owned_vector;
pub mod span_vector;
pub mod vector;
pub mod vector_error;
pub mod vectorable;

pub use borrowed_vector::BorrowedVector;
pub use info::Info;
pub use info::InfoError;
pub use owned_vector::OwnedVector;
pub use span_vector::SpanVector;
pub use span_vector::compatible;
pub use vector::Vector;
pub use vector_error::VectorError;
pub use vectorable::Vectorable;
