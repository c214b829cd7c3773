//! The core of an infinite-canvas whiteboard: mesh buffers with index
//! rebasing, incremental tessellation of freehand strokes into ribbon
//! meshes, text labels laid out from a glyph atlas, and the scene that
//! collects committed objects.
//!
//! Everything here works on whole-pixel coordinates and exact integer
//! directions. Talking to the GPU, the window system and the disk is left
//! to the program around the library, which receives plain descriptions
//! of what to upload and what to draw.

pub mod events;
pub mod gl_shaders;
pub mod gl_vertices;
pub mod json;
pub mod line;
pub mod object;
pub mod saving;
pub mod text;
pub mod util;
pub mod world;
