//! Alert sink backends.

pub mod notify_send;
