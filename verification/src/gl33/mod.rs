//! The OpenGL 3.3 backend.

pub mod buffer;
pub mod framebuffer;
pub mod pipeline;
pub mod render;
pub mod shader;
pub mod tess;
pub mod tessellation;
pub mod texture;
