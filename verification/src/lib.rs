//! Export of sparse volumetric (VDB) grids to row-oriented CSV text.
//!
//! The library turns each decoded voxel entry into a CSV row, renders whole
//! artifacts, and plans the output paths — one artifact per grid, with a
//! deterministic index-based fallback name when the primary path cannot be
//! created — and it pre-screens a stream's header before the decoder may run.
//! The VDB decoder itself (the `vdb_rs` crate), directory walking, file
//! creation and the worker pool live outside the library; they hand in plain
//! values (candidate path strings, grid names, decoded entries, creation
//! outcomes) and receive plain values back.

pub mod textfmt;
pub mod entry;
pub mod artifact;
pub mod paths;
pub mod vdb;
pub mod job;
pub mod batch;
pub mod laws;
