//! A verified core for a GPU-resident viewport uniform: the orthographic
//! pixel-to-device transform derived from the current render-target
//! resolution, the dirty-state tracking that avoids redundant uploads, and
//! the staging/copy step that refreshes the GPU buffer.
//!
//! The transform is a 4x4 matrix of IEEE-754 single-precision values; its
//! entries are computed here as exact bit patterns by integer arithmetic, so
//! the whole upload payload is pinned down byte for byte.

pub mod fbits;
pub mod globals;
pub mod gpu;
pub mod matrix;
