//! A generic N-dimensional buffer container for numeric computation.
//!
//! The central type is [`Blob`], which owns a flat value buffer (`data`), a
//! structurally parallel gradient buffer (`diff`), and a shape: a sequence of
//! signed dimension extents that tells consumers how to interpret the flat
//! buffers as a multi-dimensional array.

pub mod blob;
pub mod decimal;
pub mod numeric;

pub use blob::Blob;
pub use blob::BlobView;
pub use numeric::Numeric;
