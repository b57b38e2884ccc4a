//! Numeric codes of the OpenGL enumerants used by this backend.
//!
//! Every constant carries the value that the OpenGL registry assigns to the
//! enumerant of the same name (without its `GL_` prefix).

use vstd::prelude::*;

verus! {

// Truth values and the absence of a value.
pub const FALSE: u8 = 0;
pub const NONE: u32 = 0;
pub const TRUE: u8 = 1;

// Scalar, vector and matrix types.
pub const BOOL: u32 = 0x8B56;
pub const BOOL_VEC2: u32 = 0x8B57;
pub const BOOL_VEC3: u32 = 0x8B58;
pub const BOOL_VEC4: u32 = 0x8B59;
pub const BYTE: u32 = 0x1400;
pub const FLOAT: u32 = 0x1406;
pub const FLOAT_MAT2: u32 = 0x8B5A;
pub const FLOAT_MAT3: u32 = 0x8B5B;
pub const FLOAT_MAT4: u32 = 0x8B5C;
pub const FLOAT_VEC2: u32 = 0x8B50;
pub const FLOAT_VEC3: u32 = 0x8B51;
pub const FLOAT_VEC4: u32 = 0x8B52;
pub const INT: u32 = 0x1404;
pub const INT_VEC2: u32 = 0x8B53;
pub const INT_VEC3: u32 = 0x8B54;
pub const INT_VEC4: u32 = 0x8B55;
pub const SHORT: u32 = 0x1402;
pub const UNSIGNED_BYTE: u32 = 0x1401;
pub const UNSIGNED_INT: u32 = 0x1405;
pub const UNSIGNED_INT_VEC2: u32 = 0x8DC6;
pub const UNSIGNED_INT_VEC3: u32 = 0x8DC7;
pub const UNSIGNED_INT_VEC4: u32 = 0x8DC8;
pub const UNSIGNED_SHORT: u32 = 0x1403;

// Pixel transfer formats and sized internal formats.
pub const DEPTH_COMPONENT: u32 = 0x1902;
pub const DEPTH_COMPONENT32F: u32 = 0x8CAC;
pub const RGB: u32 = 0x1907;
pub const RGB32F: u32 = 0x8815;
pub const RGB8UI: u32 = 0x8D7D;
pub const RGBA: u32 = 0x1908;
pub const RGBA32F: u32 = 0x8814;
pub const RGBA8UI: u32 = 0x8D7C;
pub const RGBA_INTEGER: u32 = 0x8D99;
pub const RGB_INTEGER: u32 = 0x8D98;

// Buffer targets, usage and access; buffers to clear.
pub const ARRAY_BUFFER: u32 = 0x8892;
pub const COLOR_BUFFER_BIT: u32 = 0x4000;
pub const DEPTH_BUFFER_BIT: u32 = 0x0100;
pub const ELEMENT_ARRAY_BUFFER: u32 = 0x8893;
pub const READ_ONLY: u32 = 0x88B8;
pub const READ_WRITE: u32 = 0x88BA;
pub const STREAM_DRAW: u32 = 0x88E0;
pub const UNIFORM_BUFFER: u32 = 0x8A11;
pub const WRITE_ONLY: u32 = 0x88B9;

// Texture targets, parameters and parameter values.
pub const CLAMP_TO_EDGE: u32 = 0x812F;
pub const COMPARE_REF_TO_TEXTURE: u32 = 0x884E;
pub const LINEAR: u32 = 0x2601;
pub const MIRRORED_REPEAT: u32 = 0x8370;
pub const NEAREST: u32 = 0x2600;
pub const REPEAT: u32 = 0x2901;
pub const TEXTURE0: u32 = 0x84C0;
pub const TEXTURE_1D: u32 = 0x0DE0;
pub const TEXTURE_1D_ARRAY: u32 = 0x8C18;
pub const TEXTURE_2D: u32 = 0x0DE1;
pub const TEXTURE_2D_ARRAY: u32 = 0x8C1A;
pub const TEXTURE_3D: u32 = 0x806F;
pub const TEXTURE_BASE_LEVEL: u32 = 0x813C;
pub const TEXTURE_COMPARE_FUNC: u32 = 0x884D;
pub const TEXTURE_COMPARE_MODE: u32 = 0x884C;
pub const TEXTURE_CUBE_MAP: u32 = 0x8513;
pub const TEXTURE_CUBE_MAP_ARRAY: u32 = 0x9009;
pub const TEXTURE_CUBE_MAP_POSITIVE_X: u32 = 0x8515;
pub const TEXTURE_HEIGHT: u32 = 0x1001;
pub const TEXTURE_MAG_FILTER: u32 = 0x2800;
pub const TEXTURE_MAX_LEVEL: u32 = 0x813D;
pub const TEXTURE_MIN_FILTER: u32 = 0x2801;
pub const TEXTURE_WIDTH: u32 = 0x1000;
pub const TEXTURE_WRAP_R: u32 = 0x8072;
pub const TEXTURE_WRAP_S: u32 = 0x2802;
pub const TEXTURE_WRAP_T: u32 = 0x2803;

// Framebuffer targets, attachment points and statuses.
pub const COLOR_ATTACHMENT0: u32 = 0x8CE0;
pub const DEPTH_ATTACHMENT: u32 = 0x8D00;
pub const FRAMEBUFFER: u32 = 0x8D40;
pub const FRAMEBUFFER_COMPLETE: u32 = 0x8CD5;
pub const FRAMEBUFFER_INCOMPLETE_ATTACHMENT: u32 = 0x8CD6;
pub const FRAMEBUFFER_INCOMPLETE_DRAW_BUFFER: u32 = 0x8CDB;
pub const FRAMEBUFFER_INCOMPLETE_LAYER_TARGETS: u32 = 0x8DA8;
pub const FRAMEBUFFER_INCOMPLETE_MISSING_ATTACHMENT: u32 = 0x8CD7;
pub const FRAMEBUFFER_INCOMPLETE_MULTISAMPLE: u32 = 0x8D56;
pub const FRAMEBUFFER_INCOMPLETE_READ_BUFFER: u32 = 0x8CDC;
pub const FRAMEBUFFER_UNDEFINED: u32 = 0x8219;
pub const FRAMEBUFFER_UNSUPPORTED: u32 = 0x8CDD;
pub const RENDERBUFFER: u32 = 0x8D41;

// Primitive topologies.
pub const LINES: u32 = 0x0001;
pub const LINE_STRIP: u32 = 0x0003;
pub const POINTS: u32 = 0x0000;
pub const TRIANGLES: u32 = 0x0004;
pub const TRIANGLE_FAN: u32 = 0x0006;
pub const TRIANGLE_STRIP: u32 = 0x0005;

// Blending.
pub const BLEND: u32 = 0x0BE2;
pub const DST_ALPHA: u32 = 0x0304;
pub const DST_COLOR: u32 = 0x0306;
pub const FUNC_ADD: u32 = 0x8006;
pub const FUNC_REVERSE_SUBTRACT: u32 = 0x800B;
pub const FUNC_SUBTRACT: u32 = 0x800A;
pub const MAX: u32 = 0x8008;
pub const MIN: u32 = 0x8007;
pub const ONE: u32 = 1;
pub const ONE_MINUS_DST_ALPHA: u32 = 0x0305;
pub const ONE_MINUS_DST_COLOR: u32 = 0x0307;
pub const ONE_MINUS_SRC_ALPHA: u32 = 0x0303;
pub const ONE_MINUS_SRC_COLOR: u32 = 0x0301;
pub const SRC_ALPHA: u32 = 0x0302;
pub const SRC_ALPHA_SATURATE: u32 = 0x0308;
pub const SRC_COLOR: u32 = 0x0300;
pub const ZERO: u32 = 0;

// Shader stages and program queries.
pub const COMPILE_STATUS: u32 = 0x8B81;
pub const FRAGMENT_SHADER: u32 = 0x8B30;
pub const GEOMETRY_SHADER: u32 = 0x8DD9;
pub const INFO_LOG_LENGTH: u32 = 0x8B84;
pub const INVALID_INDEX: u32 = 0xFFFFFFFF;
pub const LINK_STATUS: u32 = 0x8B82;
pub const TESS_CONTROL_SHADER: u32 = 0x8E88;
pub const TESS_EVALUATION_SHADER: u32 = 0x8E87;
pub const VERTEX_SHADER: u32 = 0x8B31;

// Depth test and comparison functions.
pub const ALWAYS: u32 = 0x0207;
pub const DEPTH_TEST: u32 = 0x0B71;
pub const EQUAL: u32 = 0x0202;
pub const GEQUAL: u32 = 0x0206;
pub const GREATER: u32 = 0x0204;
pub const LEQUAL: u32 = 0x0203;
pub const LESS: u32 = 0x0201;
pub const NEVER: u32 = 0x0200;
pub const NOTEQUAL: u32 = 0x0205;

// Error codes.
pub const INVALID_ENUM: u32 = 0x0500;
pub const INVALID_FRAMEBUFFER_OPERATION: u32 = 0x0506;
pub const INVALID_OPERATION: u32 = 0x0502;
pub const INVALID_VALUE: u32 = 0x0501;
pub const NO_ERROR: u32 = 0;
pub const OUT_OF_MEMORY: u32 = 0x0505;

} // verus!
