//! Lifecycle timing of one pooled object: when it was created, requested,
//! acquired and recycled, and the durations derived from those instants.

pub mod time;
pub mod metrics;
