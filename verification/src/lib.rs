//! A verified core for a single-triangle renderer: the presentation-surface
//! lifecycle and the frame-render loop.
//!
//! The library owns the decisions of the render loop — how a window's reported
//! size becomes a valid surface configuration, which pixel format the pipeline
//! is built against, and what one frame's render pass must contain — as plain,
//! verified state transitions. The unverified shell around it performs the
//! window and GPU calls that those decisions direct.

pub mod config;
pub mod pipeline;
pub mod render_loop;
