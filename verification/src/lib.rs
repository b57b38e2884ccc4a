//! Command planning for an OpenGL 3.3 rendering backend.
//!
//! The crate turns portable descriptions of GPU resources and rendering
//! commands into the exact sequence of driver calls that realises them. Every
//! driver call is a plain [`call::Call`] value, so the mapping, layout and
//! validation rules can be stated and proved without a graphics context.

pub mod blending;
pub mod call;
pub mod error;
pub mod gl33;
pub mod gl40;
pub mod glenum;
pub mod pixel;
pub mod vertex;
