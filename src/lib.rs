//! Reports how long ago a package's build template last changed upstream,
//! with a short-lived on-disk cache in front of the upstream lookup.
//!
//! The library decides; the caller performs the file and network work that
//! each decision asks for and reports back what happened.

pub mod instant;
pub mod json;
pub mod lookup;
pub mod laws;
