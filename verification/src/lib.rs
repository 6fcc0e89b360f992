//! Execution driver and dual-notation value renderer for the `grift`
//! Scheme-like interpreter.
//!
//! The crate wraps a flat sequence of top-level forms into one sequencing
//! form, hands it to the embedded evaluator, and turns arena-resident
//! values into text under two notations: *display* (human-facing, strings
//! and characters unquoted) and *write* (literal read-back notation, the
//! default for every other shape).

pub mod driver;
pub mod host;
pub mod render;
