//! Queries of the per-file heat statistics that a filesystem with inode heat
//! tracking keeps: the ioctl request code, the byte layout of the record that
//! the kernel fills, and the mapping of a call's outcome to a typed result.
pub mod bytes;
pub mod query;
pub mod record;
pub mod request;
