//! Translation and batching core for a 2D plotting backend that renders
//! through a retained-mode GPU drawing engine.
//!
//! The crate turns backend-agnostic drawing primitives (pixel, line,
//! rectangle, path, circle, anchored text) into the engine's draw records,
//! accumulates them into a per-frame draw list, and defines the
//! present/flush protocol that hands the list over for GPU submission and
//! resets it for the next frame.

pub mod backend;
pub mod color;
pub mod errors;
pub mod records;
pub mod style;
