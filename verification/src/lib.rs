//! Descriptor-level file access for Linux, a verified core of slice helpers,
//! C strings and hash-map buckets.
pub mod errno;
pub mod cstring;
pub mod flags;
pub mod call;
pub mod file;
pub mod slice;
pub mod dense;
