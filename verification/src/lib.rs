//! Fibonacci numbers on 32-bit signed integers, computed with two accumulators
//! and proved against the mathematical sequence.

pub mod compute;
pub mod fault;
pub mod harness;
pub mod laws;
pub mod sequence;
pub mod wrap;
