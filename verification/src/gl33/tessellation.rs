//! Vertex assembly for tightly packed vertices.
//!
//! Here a vertex component is a type and a dimension alone: every scalar but
//! a boolean takes four bytes, components follow each other without padding,
//! and every attribute takes the floating-point path of the driver.

use vstd::prelude::*;
use crate::call::Call;
use crate::gl33::buffer::GLBuffer;
use crate::gl33::tess::{
    build, creation_with, dim_as_size, draw_routine, draw_unit, index_buffer, mode_code,
    opengl_mode, routine, unit_rendering, Draw, Mode, Step, INDEX_SIZE,
};
use crate::glenum;
use crate::vertex::{dim_size, Dim, Type};

verus! {

/// One component of a packed vertex.
#[derive(Clone, Copy, Debug, PartialEq, Eq, Structural)]
pub struct VertexComponentFormat {
    pub component_type: Type,
    pub dim: Dim,
}

/// A drawable unit: a vertex array with the buffers it owns, the vertex
/// buffer first.
#[derive(Clone, Debug, PartialEq, Eq)]
pub struct GLTess {
    pub render: Draw,
    pub mode: Mode,
    pub vao: u32,
    pub buffers: Vec<u32>,
}

/// Bytes of one scalar of a type.
pub open spec fn type_weight(t: Type) -> int {
    match t {
        Type::Integral => 4,
        Type::Unsigned => 4,
        Type::Floating => 4,
        Type::Boolean => 1,
    }
}

/// Driver type that scalars of a type are read as.
pub open spec fn type_code(t: Type) -> u32 {
    match t {
        Type::Integral => glenum::INT,
        Type::Boolean => glenum::INT,
        Type::Unsigned => glenum::UNSIGNED_INT,
        Type::Floating => glenum::FLOAT,
    }
}

/// Bytes that a component occupies.
pub open spec fn packed_weight(f: VertexComponentFormat) -> int {
    dim_size(f.dim) * type_weight(f.component_type)
}

/// Byte offset of component `n` of a packed vertex: the bytes of all
/// components before it. For `n` the number of components, the bytes of a
/// whole vertex.
pub open spec fn packed_offset(formats: Seq<VertexComponentFormat>, n: int) -> int
    decreases n,
{
    if n <= 0 {
        0
    } else {
        packed_offset(formats, n - 1) + packed_weight(formats[n - 1])
    }
}

/// A format that can be laid out: its components can be numbered by the
/// driver, and a vertex fits the machine.
pub open spec fn packable(formats: Seq<VertexComponentFormat>) -> bool {
    formats.len() <= u32::MAX && packed_offset(formats, formats.len() as int) <= usize::MAX
}

/// The attribute pointer of component `i`, followed by its activation.
pub open spec fn component_pointer(i: u32, stride: usize, off: usize, cf: VertexComponentFormat) -> Seq<
    Call,
> {
    seq![
        Call::VertexAttribPointer {
            index: i,
            size: dim_size(cf.dim) as u32,
            ty: type_code(cf.component_type),
            normalized: false,
            stride,
            offset: off,
        },
        Call::EnableVertexAttribArray { index: i },
    ]
}

/// Attribute pointers of the first `n` components of a packed format.
pub open spec fn vertex_pointers(formats: Seq<VertexComponentFormat>, n: int) -> Seq<Call>
    decreases n,
{
    if n <= 0 {
        Seq::empty()
    } else {
        vertex_pointers(formats, n - 1) + component_pointer(
            (n - 1) as u32,
            packed_offset(formats, formats.len() as int) as usize,
            packed_offset(formats, n - 1) as usize,
            formats[n - 1],
        )
    }
}

/// Steps that build a unit of packed vertices on the vertex array `vao`.
pub open spec fn creation(
    vao: u32,
    vbo: GLBuffer,
    ibo: Option<GLBuffer>,
    formats: Seq<VertexComponentFormat>,
) -> Seq<Step> {
    creation_with(vao, vbo, ibo, vertex_pointers(formats, formats.len() as int))
}

/// Calls of one draw of a unit.
pub open spec fn rendering(tess: GLTess, size: Option<u32>, instances: u32) -> Seq<Call> {
    unit_rendering(tess.vao, tess.mode, tess.render, size, instances)
}

/// Calls that release a unit: its vertex array, then its buffers in order.
pub open spec fn destruction(tess: GLTess) -> Seq<Call> {
    seq![Call::DeleteVertexArray { array: tess.vao }] + Seq::new(
        tess.buffers@.len(),
        |i: int| Call::DeleteBuffer { buffer: tess.buffers@[i] },
    )
}

/// Offsets grow along a packed format, by at most sixteen bytes a component.
pub proof fn lemma_packed_offset_grows(formats: Seq<VertexComponentFormat>, i: int, j: int)
    requires
        0 <= i <= j,
    ensures
        0 <= packed_offset(formats, i) <= packed_offset(formats, j),
        packed_offset(formats, j) <= 16 * j,
    decreases j,
{
    if j > 0 {
        if i < j {
            lemma_packed_offset_grows(formats, i, j - 1);
        } else {
            lemma_packed_offset_grows(formats, i - 1, j - 1);
        }
    }
}

pub fn from_dim(d: &Dim) -> (n: u32)
    ensures
        n == dim_size(*d),
{
    dim_as_size(d)
}

pub fn from_type(t: &Type) -> (code: u32)
    ensures
        code == type_code(*t),
{
    match *t {
        Type::Integral | Type::Boolean => glenum::INT,
        Type::Unsigned => glenum::UNSIGNED_INT,
        Type::Floating => glenum::FLOAT,
    }
}

pub fn from_mode(mode: Mode) -> (code: u32)
    ensures
        code == mode_code(mode),
{
    opengl_mode(mode)
}

/// Bytes of one scalar of a type.
pub fn component_type_weight(t: &Type) -> (w: usize)
    ensures
        w == type_weight(*t),
{
    match *t {
        Type::Integral => 4,
        Type::Unsigned => 4,
        Type::Floating => 4,
        Type::Boolean => 1,
    }
}

/// Bytes that a component occupies.
pub fn component_weight(f: &VertexComponentFormat) -> (w: usize)
    ensures
        w == packed_weight(*f),
        w <= 16,
{
    let d: usize = match f.dim {
        Dim::Dim1 => 1,
        Dim::Dim2 => 2,
        Dim::Dim3 => 3,
        Dim::Dim4 => 4,
    };
    d * component_type_weight(&f.component_type)
}

/// Bytes of a whole packed vertex.
pub fn vertex_weight(formats: &[VertexComponentFormat]) -> (w: usize)
    requires
        packable(formats@),
    ensures
        w == packed_offset(formats@, formats@.len() as int),
{
    let mut w: usize = 0;
    let mut i: usize = 0;
    while i < formats.len()
        invariant
            packable(formats@),
            i <= formats@.len(),
            w == packed_offset(formats@, i as int),
        decreases formats@.len() - i,
    {
        proof {
            lemma_packed_offset_grows(formats@, i as int + 1, formats@.len() as int);
        }
        w = w + component_weight(&formats[i]);
        i += 1;
    }
    w
}

/// Calls that describe component `i` to the driver and activate it.
pub fn set_component_format(i: u32, stride: usize, off: usize, cf: &VertexComponentFormat) -> (calls:
    Vec<Call>)
    ensures
        calls@ == component_pointer(i, stride, off, *cf),
{
    vec![
        Call::VertexAttribPointer {
            index: i,
            size: from_dim(&cf.dim),
            ty: from_type(&cf.component_type),
            normalized: false,
            stride,
            offset: off,
        },
        Call::EnableVertexAttribArray { index: i },
    ]
}

/// Calls that describe every component of a packed format to the driver.
pub fn set_vertex_pointers(formats: &[VertexComponentFormat]) -> (calls: Vec<Call>)
    requires
        packable(formats@),
    ensures
        calls@ == vertex_pointers(formats@, formats@.len() as int),
{
    packed_pointers(formats, vertex_weight(formats))
}

/// Calls that describe every component of a packed format to the driver,
/// given the bytes of a whole vertex.
fn packed_pointers(formats: &[VertexComponentFormat], weight: usize) -> (calls: Vec<Call>)
    requires
        packable(formats@),
        weight == packed_offset(formats@, formats@.len() as int),
    ensures
        calls@ == vertex_pointers(formats@, formats@.len() as int),
{
    let mut calls: Vec<Call> = Vec::new();
    let mut offset: usize = 0;
    let mut i: usize = 0;
    while i < formats.len()
        invariant
            packable(formats@),
            i <= formats@.len(),
            weight == packed_offset(formats@, formats@.len() as int),
            offset == packed_offset(formats@, i as int),
            calls@ == vertex_pointers(formats@, i as int),
        decreases formats@.len() - i,
    {
        proof {
            lemma_packed_offset_grows(formats@, i as int + 1, formats@.len() as int);
        }
        let mut pointer = set_component_format(i as u32, weight, offset, &formats[i]);
        calls.append(&mut pointer);
        offset = offset + component_weight(&formats[i]);
        i += 1;
    }
    calls
}

/// Builds a drawable unit on the fresh vertex array `vao`.
///
/// The vertex buffer, on the fresh handle `vbo`, holds `vert_nb` packed
/// vertices. With `indices`, a fresh handle and a number of indices, the unit
/// owns an index buffer of that many 32-bit indices and draws by index;
/// without, it draws its vertices in order.
pub fn new(
    mode: Mode,
    vao: u32,
    vbo: u32,
    formats: &[VertexComponentFormat],
    vert_nb: usize,
    indices: Option<(u32, usize)>,
) -> (r: (GLTess, Vec<Step>))
    requires
        packable(formats@),
        vert_nb * packed_offset(formats@, formats@.len() as int) <= usize::MAX,
        indices matches Some(ix) ==> ix.1 * INDEX_SIZE <= usize::MAX,
    ensures
        r.0.render == routine(vert_nb, indices),
        r.0.mode == mode,
        r.0.vao == vao,
        r.0.buffers@ == (match indices {
            Some(ix) => seq![vbo, ix.0],
            None => seq![vbo],
        }),
        r.1@ == creation(
            vao,
            GLBuffer {
                handle: vbo,
                bytes: (vert_nb * packed_offset(formats@, formats@.len() as int)) as usize,
            },
            index_buffer(indices),
            formats@,
        ),
{
    let weight = vertex_weight(formats);
    let pointers = packed_pointers(formats, weight);
    let (steps, _, ibo) = build(vao, vbo, vert_nb * weight, &pointers, indices);
    let mut buffers = vec![vbo];
    if let Some(index_buffer) = ibo {
        buffers.push(index_buffer.handle);
    }
    (GLTess { render: draw_routine(vert_nb, indices), mode, vao, buffers }, steps)
}

/// Calls that release the vertex array and every buffer of a unit.
pub fn destroy(tessellation: &GLTess) -> (calls: Vec<Call>)
    ensures
        calls@ == destruction(*tessellation),
{
    let mut calls = vec![Call::DeleteVertexArray { array: tessellation.vao }];
    let ghost array = calls@;
    let mut i: usize = 0;
    while i < tessellation.buffers.len()
        invariant
            i <= tessellation.buffers@.len(),
            calls@ == array + Seq::new(
                i as nat,
                |k: int| Call::DeleteBuffer { buffer: tessellation.buffers@[k] },
            ),
        decreases tessellation.buffers@.len() - i,
    {
        calls.push(Call::DeleteBuffer { buffer: tessellation.buffers[i] });
        i += 1;
        assert(calls@ =~= array + Seq::new(
            i as nat,
            |k: int| Call::DeleteBuffer { buffer: tessellation.buffers@[k] },
        ));
    }
    calls
}

impl GLTess {
    /// Calls that draw the unit `instances` times, with the point size or line
    /// width `size` where its topology has one.
    pub fn draw(&self, size: Option<u32>, instances: u32) -> (calls: Vec<Call>)
        requires
            instances >= 1,
        ensures
            calls@ == rendering(*self, size, instances),
    {
        draw_unit(self.vao, self.mode, self.render, size, instances)
    }
}

} // verus!
