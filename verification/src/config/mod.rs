//! Session-wide configuration.

pub mod tuning;
