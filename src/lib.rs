//! Capture pipeline of a decoy print service: per-connection framing of
//! submitted print jobs, the job record handed to triage, and the decisions of
//! the render/deliver task.

pub mod buffer;
pub mod codec;
pub mod jetdirect;
pub mod model;
pub mod print;
pub mod render;
