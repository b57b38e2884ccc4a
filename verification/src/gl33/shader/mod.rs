//! Shader stages and programs.

pub mod program;
pub mod stage;
pub mod uniform;
