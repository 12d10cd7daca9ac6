//! Verified core of a CI chat-notification tool.
//!
//! A workflow-run descriptor (already parsed by the surrounding program) is
//! classified into a presentation state and rendered into two equivalent
//! message bodies: a plain fallback text and a marked-up rich text, both
//! ending in a machine-readable correlation marker.

pub mod model;
pub mod numfmt;
pub mod classify;
pub mod duration;
pub mod render;
pub mod laws;
pub mod parity;
