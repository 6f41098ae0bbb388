//! Battery source backends.

pub mod sysfs;
