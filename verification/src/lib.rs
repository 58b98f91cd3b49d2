//! Attachment-and-bridge layer for a GPU overlay that paints onto a window
//! owned by another process.
//!
//! The library is the decision core: window discovery and styling choices,
//! rendering-context lifecycle, swap-interval (vsync) capability handling,
//! the framebuffer-to-drawing-surface bridge, and the frame lifecycle state
//! machine. Every native call (window queries, GL, the drawing surface) is
//! modelled by the plain value it returns; the caller performs the call and
//! hands the outcome in, and every decision taken on such outcomes is
//! verified.

pub mod errors;
pub mod helper;
pub mod vsync;
pub mod gl;
pub mod skia;
pub mod overlay;
