//! Driver calls as plain values.
//!
//! A [`Call`] names one OpenGL entry point together with its arguments. The
//! planning functions of this crate return sequences of calls; an executor
//! performs them, in order, against a live context. Handles, enumerants and
//! indices are `u32`, signed driver integers are `i32`, sizes and counts are
//! `usize`, and every floating-point argument is carried as the bit pattern of
//! its single-precision value. Calls that transfer caller data (`ShaderSource`,
//! the `TexSubImage*` and `GetTexImage` families, the vector forms of
//! `Uniform*`) carry the parameters of the transfer; the data itself stays with
//! the executor.

use vstd::prelude::*;

verus! {

#[derive(Clone, Copy, Debug, PartialEq, Eq, Structural)]
pub enum Call {
    // Buffer objects.
    BindBuffer { target: u32, buffer: u32 },
    /// Allocates `bytes` uninitialised bytes for the bound buffer.
    BufferData { target: u32, bytes: usize, usage: u32 },
    MapBuffer { target: u32, access: u32 },
    UnmapBuffer { target: u32 },
    BindBufferBase { target: u32, index: u32, buffer: u32 },
    DeleteBuffer { buffer: u32 },
    // Texture objects.
    ActiveTexture { unit: u32 },
    BindTexture { target: u32, texture: u32 },
    TexParameteri { target: u32, pname: u32, param: i32 },
    /// Allocates one mip level, without initial data.
    TexImage1D { target: u32, level: usize, internal_format: u32, width: u32, format: u32, ty: u32 },
    TexImage2D {
        target: u32,
        level: usize,
        internal_format: u32,
        width: u32,
        height: u32,
        format: u32,
        ty: u32,
    },
    TexImage3D {
        target: u32,
        level: usize,
        internal_format: u32,
        width: u32,
        height: u32,
        depth: u32,
        format: u32,
        ty: u32,
    },
    /// Writes a region of one mip level.
    TexSubImage1D { target: u32, level: usize, x: u32, width: u32, format: u32, ty: u32 },
    TexSubImage2D {
        target: u32,
        level: usize,
        x: u32,
        y: u32,
        width: u32,
        height: u32,
        format: u32,
        ty: u32,
    },
    TexSubImage3D {
        target: u32,
        level: usize,
        x: u32,
        y: u32,
        z: u32,
        width: u32,
        height: u32,
        depth: u32,
        format: u32,
        ty: u32,
    },
    GenerateMipmap { target: u32 },
    /// Reads the whole of one mip level into `len` elements.
    GetTexImage { target: u32, level: usize, format: u32, ty: u32, len: usize },
    DeleteTexture { texture: u32 },
    // Framebuffer objects.
    BindFramebuffer { target: u32, framebuffer: u32 },
    DrawBuffer { buffer: u32 },
    /// Attaches one mip level of `texture`.
    FramebufferTexture { target: u32, attachment: u32, texture: u32, level: usize },
    BindRenderbuffer { target: u32, renderbuffer: u32 },
    RenderbufferStorage { target: u32, internal_format: u32, width: u32, height: u32 },
    FramebufferRenderbuffer {
        target: u32,
        attachment: u32,
        renderbuffer_target: u32,
        renderbuffer: u32,
    },
    DeleteRenderbuffer { renderbuffer: u32 },
    DeleteFramebuffer { framebuffer: u32 },
    // Fixed-function state.
    Viewport { origin_x: i32, origin_y: i32, width: u32, height: u32 },
    ClearColor { red: u32, green: u32, blue: u32, alpha: u32 },
    Clear { mask: u32 },
    Enable { cap: u32 },
    Disable { cap: u32 },
    BlendEquation { mode: u32 },
    BlendFunc { src: u32, dst: u32 },
    PointSize { size: u32 },
    LineWidth { width: u32 },
    // Vertex arrays and draws.
    BindVertexArray { array: u32 },
    DeleteVertexArray { array: u32 },
    /// A floating-point attribute; `normalized` maps integer data to the unit
    /// range.
    VertexAttribPointer {
        index: u32,
        size: u32,
        ty: u32,
        normalized: bool,
        stride: usize,
        offset: usize,
    },
    /// An integer attribute, passed without conversion.
    VertexAttribIPointer { index: u32, size: u32, ty: u32, stride: usize, offset: usize },
    EnableVertexAttribArray { index: u32 },
    /// Draws `count` vertices, starting with vertex `first`.
    DrawArrays { mode: u32, first: usize, count: usize },
    DrawArraysInstanced { mode: u32, first: usize, count: usize, instances: u32 },
    /// Draws `count` indices of type `ty`, from the start of the bound index
    /// buffer.
    DrawElements { mode: u32, count: usize, ty: u32 },
    DrawElementsInstanced { mode: u32, count: usize, ty: u32, instances: u32 },
    // Shader stages and programs.
    ShaderSource { shader: u32 },
    CompileShader { shader: u32 },
    DeleteShader { shader: u32 },
    AttachShader { program: u32, shader: u32 },
    LinkProgram { program: u32 },
    UseProgram { program: u32 },
    DeleteProgram { program: u32 },
    // Uniforms.
    Uniform1i { location: i32, value: i32 },
    Uniform1ui { location: i32, word: u32 },
    Uniform1f { location: i32, bits: u32 },
    /// `count` signed integer vectors of `dim` components each.
    UniformIv { location: i32, dim: u32, count: usize },
    UniformUiv { location: i32, dim: u32, count: usize },
    UniformFv { location: i32, dim: u32, count: usize },
    /// `count` square matrices of `dim` rows, given row by row where
    /// `transpose` is set and column by column where it is not.
    UniformMatrixFv { location: i32, dim: u32, count: usize, transpose: bool },
    UniformBlockBinding { program: u32, block: u32, binding: u32 },
}

/// A step of a plan in which driver calls alternate with work of the caller.
pub trait FromCall: Sized {
    /// The step that performs `call`.
    spec fn of_call(call: Call) -> Self;

    fn driver(call: Call) -> (step: Self)
        ensures
            step == Self::of_call(call),
    ;
}

/// Driver calls as steps.
pub open spec fn lift<S: FromCall>(calls: Seq<Call>) -> Seq<S> {
    calls.map_values(|call: Call| S::of_call(call))
}

/// Appends driver calls to a list of steps.
pub fn push_calls<S: FromCall>(steps: &mut Vec<S>, calls: &Vec<Call>)
    ensures
        final(steps)@ == old(steps)@ + lift::<S>(calls@),
{
    let ghost before = steps@;
    let mut i: usize = 0;
    while i < calls.len()
        invariant
            i <= calls@.len(),
            steps@ == before + lift::<S>(calls@.take(i as int)),
        decreases calls@.len() - i,
    {
        steps.push(S::driver(calls[i]));
        i += 1;
        assert(steps@ =~= before + lift::<S>(calls@.take(i as int)));
    }
    assert(calls@.take(i as int) =~= calls@);
}

} // verus!
