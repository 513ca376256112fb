//! Attention-detection heuristics for a monitored operating-system process.
//!
//! The library interprets kernel-exposed observations of a process — its
//! status record, CPU accounting, and what its standard-input descriptor is
//! connected to — and decides whether the process currently needs human
//! attention: either it appears blocked waiting for interactive input, or it
//! has made no CPU progress for an abnormally long time.
//!
//! The library itself performs no I/O and never panics. A caller reads the
//! raw observations (the status record bytes, the resolved descriptor
//! target, the wall clock) and hands them in as plain values; every decision
//! made on those values is verified.

pub mod detectors;
pub mod probe;
pub mod stat;
