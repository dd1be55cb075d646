//! A structure-of-arrays container.
//!
//! Given N element columns of arbitrary value types, a [`ParallelVec`]
//! stores all N arrays under one shared logical length and lets callers
//! read, write and swap the i-th element across all columns as one record,
//! while any single column stays a dense array. The capability every arity
//! shares lives in [`param`], the sequence operations in [`container`],
//! the capacity policy in [`policy`], and the byte-layout engine that
//! places N typed arrays into one block in [`layout`].

pub mod container;
pub mod laws;
pub mod layout;
pub mod param;
pub mod policy;

pub use container::ParallelVec;
pub use container::ParallelVecConversionError;
pub use layout::ColumnDesc;
pub use layout::LayoutError;
pub use layout::MemoryLayout;
pub use param::ParallelVecParam;
pub use param::ParallelVecParamCopy;
