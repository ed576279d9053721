//! Core of a timing side-channel password solver.
//!
//! The solver recovers an unknown plaintext one character at a time by
//! scoring every character of an alphabet against a measurement oracle
//! (an instruction counter) and keeping the highest-scoring one.  This
//! crate holds the round-based scoring and ranking engine, the probe
//! builder, the constraint checks, and the length-discovery procedure;
//! running the target, reading the counter, and thread plumbing live in
//! the surrounding application.

pub mod command;
pub mod coordinator;
pub mod misc;
pub mod workers;
