//! Core logic of a small textured-cube renderer.
//!
//! The crate holds the parts of the renderer that are plain data
//! transformations: the procedurally generated texture atlas, the
//! file-or-generate texture loading policy, the cube mesh with its
//! atlas coordinates, and the per-frame camera and rotation state.
//! The GPU pipeline, the window loop and all file input/output live
//! outside the library and hand it plain values.

pub mod atlas;
pub mod camera;
pub mod codec;
pub mod frame;
pub mod mesh;
pub mod texture;
