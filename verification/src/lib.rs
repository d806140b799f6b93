//! A minimal 2D sprite-rendering engine core.
//!
//! The library owns the pure logic of the engine: geometry primitives,
//! trimmed sprite-sheet atlases, the camera transform, screen-space
//! clipping with visibility culling, and the scene composition that
//! drives per-frame update and draw ordering. Rendering itself is
//! expressed as a sequence of backend-neutral draw commands; a thin
//! outer layer executes those commands against a concrete backend and
//! performs all file and window I/O.

pub mod engine;
pub mod entity;
pub mod error;
pub mod font;
pub mod manager;
pub mod render;
pub mod scene;
pub mod texture;
pub mod types;
pub mod ui;
