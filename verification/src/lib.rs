//! Core of a battery-monitoring daemon.
//!
//! The library turns a stream of battery samples into at most one
//! user-facing alert per contiguous low-battery episode.  It holds the
//! episode-tracking state machine, the configuration parsing and
//! precedence rules, and the pure halves of the sysfs battery backend
//! and the notify-send alert backend; reading the system and delivering
//! notifications are left to the embedding program.

pub mod battery;
pub mod config;
pub mod notifier;
pub mod text;
pub mod tracker;
pub mod traits;
