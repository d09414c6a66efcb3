//! Assembles a long ordered sequence of labeled image tiles ("chunks") into a
//! single scrolling promotional video: a static cover, a run of horizontally
//! panning middle segments, and a static ending, spliced losslessly into one
//! output file.
//!
//! The library holds the verified core: window partitioning, cell rendering
//! geometry and pixel placement, frame composition, encoder argument
//! construction, and the orchestration plan. Callers perform the file reads,
//! file writes and encoder invocations that the plan describes.

pub mod chunk;
pub mod color;
pub mod compose;
pub mod config;
pub mod encode;
pub mod error;
pub mod imgbuf;
pub mod numfmt;
pub mod partition;
pub mod pipeline;
pub mod render;
pub mod resources;
