//! The OpenGL 4.0 backend.

pub mod shader;
