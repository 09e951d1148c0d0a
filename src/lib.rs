//! Camera control and shader-program bookkeeping for small OpenGL scenes.
//!
//! The library keeps the decisions: clamped Euler angles and zoom, the field of
//! view that the zoom maps to, and what a compile, link or uniform lookup
//! reported by the driver means for the program being built. The caller owns
//! the GL context and performs the GL calls.

pub mod buffers;
pub mod camera;
pub mod controls;
pub mod info_log;
pub mod render_gl;
pub mod shader;
