//! Core logic of an instanced fur-shell renderer.
//!
//! The crate verifies the pieces of the engine that carry the design:
//! the growable host/GPU mirrored staging buffer and its write
//! transactions, the camera navigation model, the per-frame state
//! machine with its recovery from transient surface failures, the
//! debug line batch, and mesh asset validation. Device submission,
//! windowing and floating-point matrix construction live outside the
//! verified core and consume the plain values these modules produce.

pub mod fixed;
pub mod game;
pub mod input;
pub mod pipelines;
pub mod resources;
