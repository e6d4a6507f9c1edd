//! Resource wrappers and per-frame logic for a small OpenGL 3.3 Core renderer.
//!
//! Every GL object wrapper owns a nonzero name. The pointer-free GL entry
//! points are called from here; the queries that need raw pointers are made
//! by the host, which reports their results to the state machines of
//! [`shaders`].
pub mod attributes;
pub mod camera;
pub mod clock;
pub mod frame;
pub mod gl;
pub mod info_log;
pub mod objects;
pub mod shaders;
pub mod texture;
