//! Shader programs.

pub mod program;
