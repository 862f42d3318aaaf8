//! Records that move through the capture pipeline.

pub mod job;
