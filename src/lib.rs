//! Extended file metadata: the translation of the kernel's `statx` record into
//! a sparse-file-aware [`stat::Stat`], and the completion step of a metadata
//! query, which either translates the record or enriches the failure with the
//! operation and the queried path.

pub mod stat;
pub mod request;
