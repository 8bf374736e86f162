//! Measurement primitives for latency micro-benchmarks on Linux: a clock over
//! two interchangeable time sources, a pinned append-only sample buffer, a
//! memoizing statistics aggregator, and the small decision procedures that the
//! benchmark drivers run between measurements.

pub mod buffer;
pub mod calibrate;
pub mod clock;
pub mod plan;
pub mod stats;
pub mod text;
