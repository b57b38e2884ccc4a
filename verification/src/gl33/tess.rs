//! Vertex assembly: interleaved attribute layout and drawable units.

use vstd::prelude::*;
use crate::call::{lift, push_calls, Call};
use crate::gl33::buffer;
use crate::gl33::buffer::GLBuffer;
use crate::glenum;
use crate::vertex::{
    align_up, dim_size, end_at, lemma_align_up, lemma_layout_nonnegative,
    lemma_offsets_ordered_and_aligned, lemma_stride_covers, offset_at, stride, valid_format, weight,
    Dim, Type, VertexComponentFormat, VertexFormat,
};

verus! {

/// Primitive topology of a draw.
#[derive(Clone, Copy, Debug, PartialEq, Eq, Structural)]
pub enum Mode {
    Point,
    Line,
    LineStrip,
    Triangle,
    TriangleFan,
    TriangleStrip,
}

/// The draw routine of a drawable unit, fixed when the unit is built.
#[derive(Clone, Copy, Debug, PartialEq, Eq, Structural)]
pub enum Draw {
    /// Draws `count` consecutive vertices.
    Arrays { count: usize },
    /// Draws `count` 32-bit indices from the unit's index buffer.
    Elements { count: usize },
}

/// A drawable unit: a vertex array with the buffers it owns.
#[derive(Clone, Debug, PartialEq, Eq)]
pub struct GLTess {
    pub render: Draw,
    pub mode: Mode,
    pub vao: u32,
    pub vbo: Option<GLBuffer>,
    pub ibo: Option<GLBuffer>,
    pub vertex_format: VertexFormat,
    pub vert_nb: usize,
}

/// One step of building a drawable unit.
#[derive(Clone, Copy, Debug, PartialEq, Eq, Structural)]
pub enum Step {
    Driver(Call),
    /// Fill the vertex buffer with the caller's vertices, as a whole-buffer
    /// write.
    FillVertices(GLBuffer),
    /// Fill the index buffer with the caller's indices, as a whole-buffer
    /// write.
    FillIndices(GLBuffer),
}

impl crate::call::FromCall for Step {
    open spec fn of_call(call: Call) -> Step {
        Step::Driver(call)
    }

    fn driver(call: Call) -> (step: Step) {
        Step::Driver(call)
    }
}

#[derive(Clone, Copy, Debug, PartialEq, Eq, Structural)]
pub enum TessError {
    /// The component at this position has no driver type.
    UnsupportedVertexFormat(usize),
}

/// Bit pattern of the width 1.0, used where a draw names none.
pub const DEFAULT_RASTERIZATION_SIZE: u32 = 0x3F80_0000;

/// Size in bytes of one index.
pub const INDEX_SIZE: usize = 4;

/// Driver type of a component's scalars, where there is one.
pub open spec fn sized_type(f: VertexComponentFormat) -> Option<u32> {
    if f.comp_type == Type::Integral && f.unit_size == 1 {
        Some(glenum::BYTE)
    } else if f.comp_type == Type::Integral && f.unit_size == 2 {
        Some(glenum::SHORT)
    } else if f.comp_type == Type::Integral && f.unit_size == 4 {
        Some(glenum::INT)
    } else if (f.comp_type == Type::Unsigned || f.comp_type == Type::Boolean) && f.unit_size == 1 {
        Some(glenum::UNSIGNED_BYTE)
    } else if f.comp_type == Type::Unsigned && f.unit_size == 2 {
        Some(glenum::UNSIGNED_SHORT)
    } else if f.comp_type == Type::Unsigned && f.unit_size == 4 {
        Some(glenum::UNSIGNED_INT)
    } else if f.comp_type == Type::Floating && f.unit_size == 4 {
        Some(glenum::FLOAT)
    } else {
        None
    }
}

/// Driver code of a topology.
pub open spec fn mode_code(mode: Mode) -> u32 {
    match mode {
        Mode::Point => glenum::POINTS,
        Mode::Line => glenum::LINES,
        Mode::LineStrip => glenum::LINE_STRIP,
        Mode::Triangle => glenum::TRIANGLES,
        Mode::TriangleFan => glenum::TRIANGLE_FAN,
        Mode::TriangleStrip => glenum::TRIANGLE_STRIP,
    }
}

/// Index of the first component without a driver type among the first `n`,
/// or `n` where each has one.
pub open spec fn first_unsupported(formats: Seq<VertexComponentFormat>, n: int) -> int
    decreases n,
{
    if n <= 0 {
        0
    } else if first_unsupported(formats, n - 1) < n - 1 || sized_type(formats[n - 1]).is_none() {
        first_unsupported(formats, n - 1)
    } else {
        n
    }
}

/// The attribute pointer of component `i`, followed by its activation.
/// Floating-point components take the floating-point path, all others the
/// integer path.
pub open spec fn component_pointer(
    i: u32,
    stride: usize,
    off: usize,
    f: VertexComponentFormat,
) -> Seq<Call> {
    seq![
        if f.comp_type == Type::Floating {
            Call::VertexAttribPointer {
                index: i,
                size: dim_size(f.dim) as u32,
                ty: sized_type(f).unwrap(),
                normalized: false,
                stride,
                offset: off,
            }
        } else {
            Call::VertexAttribIPointer {
                index: i,
                size: dim_size(f.dim) as u32,
                ty: sized_type(f).unwrap(),
                stride,
                offset: off,
            }
        },
        Call::EnableVertexAttribArray { index: i },
    ]
}

/// Attribute pointers of the first `n` components of a format, in order.
pub open spec fn vertex_pointers(formats: Seq<VertexComponentFormat>, n: int) -> Seq<Call>
    decreases n,
{
    if n <= 0 {
        Seq::empty()
    } else {
        vertex_pointers(formats, n - 1) + component_pointer(
            (n - 1) as u32,
            stride(formats) as usize,
            offset_at(formats, n - 1) as usize,
            formats[n - 1],
        )
    }
}

/// Calls that set the point size or the line width for a draw: points take a
/// size, lines and line strips a width, other topologies nothing.
pub open spec fn rasterization(mode: Mode, size: Option<u32>) -> Seq<Call> {
    let computed = match size {
        Some(s) => s,
        None => DEFAULT_RASTERIZATION_SIZE,
    };
    match mode {
        Mode::Point => seq![Call::PointSize { size: computed }],
        Mode::Line | Mode::LineStrip => seq![Call::LineWidth { width: computed }],
        _ => Seq::empty(),
    }
}

/// The draw call of a routine for `instances` instances.
pub open spec fn draw_call(render: Draw, mode: Mode, instances: u32) -> Call {
    match render {
        Draw::Arrays { count } => if instances == 1 {
            Call::DrawArrays { mode: mode_code(mode), first: 0, count }
        } else {
            Call::DrawArraysInstanced { mode: mode_code(mode), first: 0, count, instances }
        },
        Draw::Elements { count } => if instances == 1 {
            Call::DrawElements { mode: mode_code(mode), count, ty: glenum::UNSIGNED_INT }
        } else {
            Call::DrawElementsInstanced {
                mode: mode_code(mode),
                count,
                ty: glenum::UNSIGNED_INT,
                instances,
            }
        },
    }
}

/// Calls of one draw of a unit.
pub open spec fn rendering(tess: GLTess, size: Option<u32>, instances: u32) -> Seq<Call> {
    unit_rendering(tess.vao, tess.mode, tess.render, size, instances)
}

/// Steps that build a unit on the vertex array `vao`, given the calls that
/// describe its vertices: the vertex buffer is allocated and filled, bound,
/// and described to the driver; an index buffer, where there is one, is
/// allocated, filled and bound; the vertex array is unbound last.
pub open spec fn creation_with(
    vao: u32,
    vbo: GLBuffer,
    ibo: Option<GLBuffer>,
    pointers: Seq<Call>,
) -> Seq<Step> {
    seq![Step::Driver(Call::BindVertexArray { array: vao })] + lift(
        buffer::allocation(vbo.handle, vbo.bytes),
    ) + seq![
        Step::FillVertices(vbo),
        Step::Driver(Call::BindBuffer { target: glenum::ARRAY_BUFFER, buffer: vbo.handle }),
    ] + lift(pointers) + (match ibo {
        Some(b) => lift(buffer::allocation(b.handle, b.bytes)) + seq![
            Step::FillIndices(b),
            Step::Driver(
                Call::BindBuffer { target: glenum::ELEMENT_ARRAY_BUFFER, buffer: b.handle },
            ),
        ],
        None => Seq::empty(),
    }) + seq![Step::Driver(Call::BindVertexArray { array: 0 })]
}

/// Steps that build a unit of interleaved vertices on the vertex array `vao`.
pub open spec fn creation(
    vao: u32,
    vbo: GLBuffer,
    ibo: Option<GLBuffer>,
    formats: Seq<VertexComponentFormat>,
) -> Seq<Step> {
    creation_with(vao, vbo, ibo, vertex_pointers(formats, formats.len() as int))
}

/// The index buffer of a unit built with `indices`, a handle and a number of
/// indices.
pub open spec fn index_buffer(indices: Option<(u32, usize)>) -> Option<GLBuffer> {
    match indices {
        Some(ix) => Some(GLBuffer { handle: ix.0, bytes: (ix.1 * INDEX_SIZE) as usize }),
        None => None,
    }
}

/// The draw routine of a unit of `vert_nb` vertices built with `indices`.
pub open spec fn routine(vert_nb: usize, indices: Option<(u32, usize)>) -> Draw {
    match indices {
        Some(ix) => Draw::Elements { count: ix.1 },
        None => Draw::Arrays { count: vert_nb },
    }
}

/// Calls of one draw on the vertex array `vao`: it is bound, the point size
/// or line width is set where the topology has one, and the draw is issued.
pub open spec fn unit_rendering(
    vao: u32,
    mode: Mode,
    render: Draw,
    size: Option<u32>,
    instances: u32,
) -> Seq<Call> {
    seq![Call::BindVertexArray { array: vao }] + rasterization(mode, size) + seq![
        draw_call(render, mode, instances),
    ]
}

/// Number of scalars of a dimension.
pub fn dim_as_size(d: &Dim) -> (n: u32)
    ensures
        n == dim_size(*d),
{
    match *d {
        Dim::Dim1 => 1,
        Dim::Dim2 => 2,
        Dim::Dim3 => 3,
        Dim::Dim4 => 4,
    }
}

/// Driver type of a component's scalars, or `None` where the driver has none
/// for this scalar type and size.
pub fn opengl_sized_type(f: &VertexComponentFormat) -> (ty: Option<u32>)
    ensures
        ty == sized_type(*f),
{
    match (f.comp_type, f.unit_size) {
        (Type::Integral, 1) => Some(glenum::BYTE),
        (Type::Integral, 2) => Some(glenum::SHORT),
        (Type::Integral, 4) => Some(glenum::INT),
        (Type::Unsigned, 1) | (Type::Boolean, 1) => Some(glenum::UNSIGNED_BYTE),
        (Type::Unsigned, 2) => Some(glenum::UNSIGNED_SHORT),
        (Type::Unsigned, 4) => Some(glenum::UNSIGNED_INT),
        (Type::Floating, 4) => Some(glenum::FLOAT),
        _ => None,
    }
}

/// Driver code of a topology.
pub fn opengl_mode(mode: Mode) -> (code: u32)
    ensures
        code == mode_code(mode),
{
    match mode {
        Mode::Point => glenum::POINTS,
        Mode::Line => glenum::LINES,
        Mode::LineStrip => glenum::LINE_STRIP,
        Mode::Triangle => glenum::TRIANGLES,
        Mode::TriangleFan => glenum::TRIANGLE_FAN,
        Mode::TriangleStrip => glenum::TRIANGLE_STRIP,
    }
}

/// Bytes that a component occupies.
pub fn component_weight(f: &VertexComponentFormat) -> (w: usize)
    requires
        weight(*f) <= usize::MAX,
    ensures
        w == weight(*f),
{
    let d: usize = match f.dim {
        Dim::Dim1 => 1,
        Dim::Dim2 => 2,
        Dim::Dim3 => 3,
        Dim::Dim4 => 4,
    };
    d * f.unit_size
}

/// Rounds `off` up to a multiple of `align`.
pub fn off_align(off: usize, align: usize) -> (aligned: usize)
    requires
        align >= 1,
        align_up(off as int, align as int) <= usize::MAX,
    ensures
        aligned == align_up(off as int, align as int),
        aligned % align == 0,
        off <= aligned < off + align,
{
    proof {
        lemma_align_up(off as int, align as int);
        vstd::arithmetic::div_mod::lemma_mod_decreases(off as nat, align as nat);
    }
    let rest = off % align;
    if rest == 0 {
        off
    } else {
        off - rest + align
    }
}

/// Byte offset of every component of an interleaved vertex.
///
/// The offsets never decrease, and each is a multiple of its component's
/// alignment.
pub fn aligned_offsets(formats: &[VertexComponentFormat]) -> (offsets: Vec<usize>)
    requires
        valid_format(formats@),
    ensures
        offsets@.len() == formats@.len(),
        forall|i: int| 0 <= i < offsets@.len() ==> #[trigger] offsets@[i] == offset_at(formats@, i),
        forall|i: int, j: int|
            0 <= i <= j < offsets@.len() ==> #[trigger] offsets@[i] <= #[trigger] offsets@[j],
        forall|i: int|
            0 <= i < offsets@.len() ==> (#[trigger] offsets@[i]) as int % (
            formats@[i].align as int) == 0,
{
    let mut offsets: Vec<usize> = Vec::with_capacity(formats.len());
    let mut off: usize = 0;
    let mut i: usize = 0;
    while i < formats.len()
        invariant
            valid_format(formats@),
            i <= formats@.len(),
            offsets@.len() == i,
            forall|k: int| 0 <= k < i ==> #[trigger] offsets@[k] == offset_at(formats@, k),
            off == (if i == 0 {
                0
            } else {
                end_at(formats@, i - 1)
            }),
        decreases formats@.len() - i,
    {
        let f = &formats[i];
        proof {
            lemma_layout_nonnegative(formats@, i as int);
            lemma_stride_covers(formats@, i as int);
            if i > 0 {
                lemma_layout_nonnegative(formats@, i - 1);
            } else {
                assert(align_up(0, f.align as int) == 0) by {
                    vstd::arithmetic::div_mod::lemma_small_mod(0, f.align as nat);
                }
            }
            assert(weight(*f) >= 0) by (nonlinear_arith)
                requires
                    weight(*f) == dim_size(f.dim) * f.unit_size,
                    dim_size(f.dim) >= 1,
                    f.unit_size >= 0,
            ;
        }
        off = off_align(off, f.align);
        offsets.push(off);
        off = off + component_weight(f);
        i += 1;
    }
    proof {
        assert forall|a: int, b: int| 0 <= a <= b < offsets@.len() implies #[trigger] offsets@[a]
            <= #[trigger] offsets@[b] by {
            lemma_offsets_ordered_and_aligned(formats@, a, b);
        }
        assert forall|a: int| 0 <= a < offsets@.len() implies (#[trigger] offsets@[a]) as int % (
        formats@[a].align as int) == 0 by {
            lemma_offsets_ordered_and_aligned(formats@, a, a);
        }
    }
    offsets
}

/// Bytes from one vertex to the next, given the components' offsets: the end
/// of the last component, rounded up to the first component's alignment.
pub fn offset_based_vertex_weight(formats: &[VertexComponentFormat], offsets: &[usize]) -> (w:
    usize)
    requires
        valid_format(formats@),
        offsets@.len() == 0 || offsets@.len() == formats@.len(),
        forall|i: int| 0 <= i < offsets@.len() ==> #[trigger] offsets@[i] == offset_at(formats@, i),
    ensures
        offsets@.len() == formats@.len() ==> w == stride(formats@),
        offsets@.len() == 0 ==> w == 0,
{
    if formats.len() == 0 || offsets.len() == 0 {
        return 0;
    }
    let last = formats.len() - 1;
    proof {
        lemma_layout_nonnegative(formats@, last as int);
        lemma_stride_covers(formats@, last as int);
        assert(weight(formats@[last as int]) >= 0) by (nonlinear_arith)
            requires
                weight(formats@[last as int]) == dim_size(formats@[last as int].dim)
                    * formats@[last as int].unit_size,
                dim_size(formats@[last as int].dim) >= 1,
                formats@[last as int].unit_size >= 0,
        ;
    }
    off_align(offsets[offsets.len() - 1] + component_weight(&formats[last]), formats[0].align)
}

/// Calls that set the point size or the line width for a draw with `mode`.
pub fn set_point_line_size(mode: Mode, size: Option<u32>) -> (calls: Vec<Call>)
    ensures
        calls@ == rasterization(mode, size),
{
    let computed = match size {
        Some(s) => s,
        None => DEFAULT_RASTERIZATION_SIZE,
    };
    match mode {
        Mode::Point => vec![Call::PointSize { size: computed }],
        Mode::Line | Mode::LineStrip => vec![Call::LineWidth { width: computed }],
        _ => Vec::new(),
    }
}

/// Calls that describe component `i` to the driver and activate it, or `None`
/// where the component has no driver type.
pub fn set_component_format(i: u32, stride: usize, off: usize, f: &VertexComponentFormat) -> (r:
    Option<Vec<Call>>)
    ensures
        sized_type(*f).is_none() ==> r.is_none(),
        sized_type(*f).is_some() ==> r.is_some() && r.unwrap()@ == component_pointer(
            i,
            stride,
            off,
            *f,
        ),
{
    let ty = match opengl_sized_type(f) {
        Some(ty) => ty,
        None => {
            return None;
        },
    };
    let pointer = match f.comp_type {
        Type::Floating => Call::VertexAttribPointer {
            index: i,
            size: dim_as_size(&f.dim),
            ty,
            normalized: false,
            stride,
            offset: off,
        },
        Type::Integral | Type::Unsigned | Type::Boolean => Call::VertexAttribIPointer {
            index: i,
            size: dim_as_size(&f.dim),
            ty,
            stride,
            offset: off,
        },
    };
    Some(vec![pointer, Call::EnableVertexAttribArray { index: i }])
}

/// Calls that describe every component of a format to the driver, with the
/// offsets and the stride of its interleaved layout.
///
/// Fails on the first component that has no driver type.
pub fn set_vertex_pointers(formats: &[VertexComponentFormat]) -> (r: Result<Vec<Call>, TessError>)
    requires
        valid_format(formats@),
    ensures
        0 <= first_unsupported(formats@, formats@.len() as int) <= formats@.len(),
        first_unsupported(formats@, formats@.len() as int) == formats@.len() ==> r is Ok
            && r->Ok_0@ == vertex_pointers(formats@, formats@.len() as int),
        first_unsupported(formats@, formats@.len() as int) < formats@.len() ==> r == Err::<
            Vec<Call>,
            TessError,
        >(
            TessError::UnsupportedVertexFormat(
                first_unsupported(formats@, formats@.len() as int) as usize,
            ),
        ),
{
    let (vertex_weight, offsets) = build_layout(formats);
    layout_pointers(formats, vertex_weight, offsets.as_slice())
}

/// Calls that describe every component of a format to the driver, given the
/// stride and the offsets of its layout.
fn layout_pointers(formats: &[VertexComponentFormat], vertex_weight: usize, offsets: &[usize]) -> (r:
    Result<Vec<Call>, TessError>)
    requires
        valid_format(formats@),
        vertex_weight == stride(formats@),
        offsets@.len() == formats@.len(),
        forall|k: int| 0 <= k < offsets@.len() ==> #[trigger] offsets@[k] == offset_at(formats@, k),
    ensures
        0 <= first_unsupported(formats@, formats@.len() as int) <= formats@.len(),
        first_unsupported(formats@, formats@.len() as int) == formats@.len() ==> r is Ok
            && r->Ok_0@ == vertex_pointers(formats@, formats@.len() as int),
        first_unsupported(formats@, formats@.len() as int) < formats@.len() ==> r == Err::<
            Vec<Call>,
            TessError,
        >(
            TessError::UnsupportedVertexFormat(
                first_unsupported(formats@, formats@.len() as int) as usize,
            ),
        ),
{
    proof {
        lemma_first_unsupported(formats@, formats@.len() as int);
    }
    let mut calls: Vec<Call> = Vec::new();
    let mut i: usize = 0;
    while i < formats.len()
        invariant
            valid_format(formats@),
            i <= formats@.len(),
            offsets@.len() == formats@.len(),
            forall|k: int| 0 <= k < offsets@.len() ==> #[trigger] offsets@[k] == offset_at(formats@, k),
            vertex_weight == stride(formats@),
            first_unsupported(formats@, i as int) == i,
            calls@ == vertex_pointers(formats@, i as int),
        decreases formats@.len() - i,
    {
        match set_component_format(i as u32, vertex_weight, offsets[i], &formats[i]) {
            Some(mut pointer) => {
                calls.append(&mut pointer);
            },
            None => {
                proof {
                    lemma_first_unsupported_stays(formats@, i as int + 1, formats@.len() as int);
                }
                return Err(TessError::UnsupportedVertexFormat(i));
            },
        }
        i += 1;
    }
    Ok(calls)
}

/// Stride and component offsets of the interleaved layout of a format.
pub fn build_layout(formats: &[VertexComponentFormat]) -> (layout: (usize, Vec<usize>))
    requires
        valid_format(formats@),
    ensures
        layout.0 == stride(formats@),
        layout.1@.len() == formats@.len(),
        forall|i: int|
            0 <= i < layout.1@.len() ==> #[trigger] layout.1@[i] == offset_at(formats@, i),
        forall|i: int, j: int|
            0 <= i <= j < layout.1@.len() ==> #[trigger] layout.1@[i] <= #[trigger] layout.1@[j],
        forall|i: int|
            0 <= i < layout.1@.len() ==> (#[trigger] layout.1@[i]) as int % (
            formats@[i].align as int) == 0,
{
    let offsets = aligned_offsets(formats);
    let vertex_weight = offset_based_vertex_weight(formats, offsets.as_slice());
    (vertex_weight, offsets)
}

/// Steps that build a unit on the fresh vertex array `vao`, with its buffers:
/// a vertex buffer of `vertex_bytes` bytes on the fresh handle `vbo`, which
/// `pointers` describes to the driver, and an index buffer of 32-bit indices
/// where `indices` gives a fresh handle and a number of indices.
pub fn build(
    vao: u32,
    vbo: u32,
    vertex_bytes: usize,
    pointers: &Vec<Call>,
    indices: Option<(u32, usize)>,
) -> (r: (Vec<Step>, GLBuffer, Option<GLBuffer>))
    requires
        indices matches Some(ix) ==> ix.1 * INDEX_SIZE <= usize::MAX,
    ensures
        r.1 == (GLBuffer { handle: vbo, bytes: vertex_bytes }),
        r.2 == index_buffer(indices),
        r.0@ == creation_with(vao, r.1, r.2, pointers@),
{
    let mut steps: Vec<Step> = Vec::new();
    steps.push(Step::Driver(Call::BindVertexArray { array: vao }));
    assert(steps@ =~= seq![Step::Driver(Call::BindVertexArray { array: vao })]);
    let (vertex_buffer, allocation) = buffer::new(vbo, vertex_bytes);
    push_calls(&mut steps, &allocation);
    let ghost allocated = steps@;
    steps.push(Step::FillVertices(vertex_buffer));
    steps.push(
        Step::Driver(Call::BindBuffer { target: glenum::ARRAY_BUFFER, buffer: vertex_buffer.handle }),
    );
    assert(steps@ =~= allocated + seq![
        Step::FillVertices(vertex_buffer),
        Step::Driver(
            Call::BindBuffer { target: glenum::ARRAY_BUFFER, buffer: vertex_buffer.handle },
        ),
    ]);
    push_calls(&mut steps, pointers);
    let ghost vertex_part = steps@;
    let ibo = match indices {
        Some((handle, ind_nb)) => {
            let (index_buffer, allocation) = buffer::new(handle, ind_nb * INDEX_SIZE);
            push_calls(&mut steps, &allocation);
            steps.push(Step::FillIndices(index_buffer));
            steps.push(
                Step::Driver(
                    Call::BindBuffer {
                        target: glenum::ELEMENT_ARRAY_BUFFER,
                        buffer: index_buffer.handle,
                    },
                ),
            );
            assert(steps@ =~= vertex_part + (lift(
                buffer::allocation(index_buffer.handle, index_buffer.bytes),
            ) + seq![
                Step::FillIndices(index_buffer),
                Step::Driver(
                    Call::BindBuffer {
                        target: glenum::ELEMENT_ARRAY_BUFFER,
                        buffer: index_buffer.handle,
                    },
                ),
            ]));
            Some(index_buffer)
        },
        None => {
            assert(steps@ =~= vertex_part + Seq::<Step>::empty());
            None
        },
    };
    steps.push(Step::Driver(Call::BindVertexArray { array: 0 }));
    assert(steps@ =~= creation_with(vao, vertex_buffer, ibo, pointers@));
    (steps, vertex_buffer, ibo)
}

/// The draw routine of a unit of `vert_nb` vertices built with `indices`.
pub fn draw_routine(vert_nb: usize, indices: Option<(u32, usize)>) -> (render: Draw)
    ensures
        render == routine(vert_nb, indices),
{
    match indices {
        Some((_, ind_nb)) => Draw::Elements { count: ind_nb },
        None => Draw::Arrays { count: vert_nb },
    }
}

/// Builds a drawable unit on the fresh vertex array `vao`.
///
/// The vertex buffer, on the fresh handle `vbo`, holds `vert_nb` vertices of
/// the format's stride. With `indices`, a fresh handle and a number of
/// indices, the unit owns an index buffer of that many 32-bit indices and
/// draws by index; without, it draws its vertices in order. Fails, with no
/// step planned, on the first component that has no driver type.
pub fn new_tess(
    mode: Mode,
    vao: u32,
    vbo: u32,
    vertex_format: VertexFormat,
    vert_nb: usize,
    indices: Option<(u32, usize)>,
) -> (r: Result<(GLTess, Vec<Step>), TessError>)
    requires
        valid_format(vertex_format@),
        vert_nb * stride(vertex_format@) <= usize::MAX,
        indices matches Some(ix) ==> ix.1 * INDEX_SIZE <= usize::MAX,
    ensures
        first_unsupported(vertex_format@, vertex_format@.len() as int) == vertex_format@.len()
            ==> r is Ok && r->Ok_0.0 == (GLTess {
            render: routine(vert_nb, indices),
            mode,
            vao,
            vbo: Some(
                GLBuffer { handle: vbo, bytes: (vert_nb * stride(vertex_format@)) as usize },
            ),
            ibo: index_buffer(indices),
            vertex_format,
            vert_nb,
        }) && r->Ok_0.1@ == creation(
            vao,
            r->Ok_0.0.vbo.unwrap(),
            r->Ok_0.0.ibo,
            vertex_format@,
        ),
        first_unsupported(vertex_format@, vertex_format@.len() as int) < vertex_format@.len()
            ==> r is Err && r->Err_0 == TessError::UnsupportedVertexFormat(
            first_unsupported(vertex_format@, vertex_format@.len() as int) as usize,
        ),
{
    proof {
        lemma_first_unsupported(vertex_format@, vertex_format@.len() as int);
    }
    let (vertex_weight, offsets) = build_layout(vertex_format.as_slice());
    let pointers = match layout_pointers(
        vertex_format.as_slice(),
        vertex_weight,
        offsets.as_slice(),
    ) {
        Ok(pointers) => pointers,
        Err(e) => {
            return Err(e);
        },
    };
    let (steps, vertex_buffer, ibo) = build(vao, vbo, vert_nb * vertex_weight, &pointers, indices);
    let render = draw_routine(vert_nb, indices);
    Ok((GLTess { render, mode, vao, vbo: Some(vertex_buffer), ibo, vertex_format, vert_nb }, steps))
}

/// Builds a unit without buffers on the fresh vertex array `vao`, for
/// `vert_nb` vertices that a shader generates.
pub fn attributeless(mode: Mode, vao: u32, vert_nb: usize) -> (r: (GLTess, Vec<Call>))
    ensures
        r.0.render == (Draw::Arrays { count: vert_nb }),
        r.0.mode == mode,
        r.0.vao == vao,
        r.0.vbo.is_none(),
        r.0.ibo.is_none(),
        r.0.vertex_format@ == Seq::<VertexComponentFormat>::empty(),
        r.0.vert_nb == vert_nb,
        r.1@ == seq![
            Call::BindVertexArray { array: vao },
            Call::BindVertexArray { array: 0 },
        ],
{
    let tess = GLTess {
        render: Draw::Arrays { count: vert_nb },
        mode,
        vao,
        vbo: None,
        ibo: None,
        vertex_format: Vec::new(),
        vert_nb,
    };
    (tess, vec![Call::BindVertexArray { array: vao }, Call::BindVertexArray { array: 0 }])
}

/// Calls that release what a unit owns: its vertex array, then its vertex
/// buffer and its index buffer where it has them.
pub open spec fn destruction(tess: GLTess) -> Seq<Call> {
    seq![Call::DeleteVertexArray { array: tess.vao }] + (match tess.vbo {
        Some(b) => seq![Call::DeleteBuffer { buffer: b.handle }],
        None => Seq::empty(),
    }) + (match tess.ibo {
        Some(b) => seq![Call::DeleteBuffer { buffer: b.handle }],
        None => Seq::empty(),
    })
}

/// Calls that release the vertex array and every buffer that the unit owns.
pub fn destroy_tess(tess: &GLTess) -> (calls: Vec<Call>)
    ensures
        calls@ == destruction(*tess),
{
    let mut calls = vec![Call::DeleteVertexArray { array: tess.vao }];
    if let Some(vbo) = &tess.vbo {
        calls.push(Call::DeleteBuffer { buffer: vbo.handle });
    }
    if let Some(ibo) = &tess.ibo {
        calls.push(Call::DeleteBuffer { buffer: ibo.handle });
    }
    assert(calls@ =~= destruction(*tess));
    calls
}

/// The format of the unit's vertices.
pub fn vertex_format(tess: &GLTess) -> (format: &VertexFormat)
    ensures
        format@ == tess.vertex_format@,
{
    &tess.vertex_format
}

/// The unit's vertex buffer with the number of vertices it holds, where the
/// unit has one.
pub fn get_vertex_buffer(tess: &GLTess) -> (r: Option<(GLBuffer, usize)>)
    ensures
        r == match tess.vbo {
            Some(vbo) => Some((vbo, tess.vert_nb)),
            None => None,
        },
{
    match tess.vbo {
        Some(vbo) => Some((vbo, tess.vert_nb)),
        None => None,
    }
}

/// Calls that draw on the vertex array `vao` with a draw routine, `instances`
/// times, with the point size or line width `size` where the topology has
/// one.
pub fn draw_unit(vao: u32, mode: Mode, render: Draw, size: Option<u32>, instances: u32) -> (calls:
    Vec<Call>)
    requires
        instances >= 1,
    ensures
        calls@ == unit_rendering(vao, mode, render, size, instances),
{
    let mut calls = vec![Call::BindVertexArray { array: vao }];
    let mut rasterization = set_point_line_size(mode, size);
    calls.append(&mut rasterization);
    let code = opengl_mode(mode);
    let draw = match render {
        Draw::Arrays { count } => if instances == 1 {
            Call::DrawArrays { mode: code, first: 0, count }
        } else {
            Call::DrawArraysInstanced { mode: code, first: 0, count, instances }
        },
        Draw::Elements { count } => if instances == 1 {
            Call::DrawElements { mode: code, count, ty: glenum::UNSIGNED_INT }
        } else {
            Call::DrawElementsInstanced { mode: code, count, ty: glenum::UNSIGNED_INT, instances }
        },
    };
    calls.push(draw);
    assert(calls@ =~= unit_rendering(vao, mode, render, size, instances));
    calls
}

impl GLTess {
    /// Calls that draw the unit `instances` times, with the point size or line
    /// width `size` where its topology has one.
    pub fn draw(&self, size: Option<u32>, instances: u32) -> (calls: Vec<Call>)
        requires
            instances >= 1,
        ensures
            calls@ == rendering(*self, size, instances),
    {
        draw_unit(self.vao, self.mode, self.render, size, instances)
    }
}

/// Once a component without a driver type is found, it stays the first one
/// however many more components are looked at.
pub proof fn lemma_first_unsupported_stays(formats: Seq<VertexComponentFormat>, n: int, m: int)
    requires
        0 <= n <= m,
        first_unsupported(formats, n) < n,
    ensures
        first_unsupported(formats, m) == first_unsupported(formats, n),
    decreases m - n,
{
    if n < m {
        lemma_first_unsupported_stays(formats, n, m - 1);
    }
}

/// What `first_unsupported` returns: a position up to `n`; every component
/// before it has a driver type, and the one at it, where it is below `n`, has
/// none.
pub proof fn lemma_first_unsupported(formats: Seq<VertexComponentFormat>, n: int)
    requires
        0 <= n,
    ensures
        0 <= first_unsupported(formats, n) <= n,
        forall|k: int|
            0 <= k < first_unsupported(formats, n) ==> sized_type(#[trigger] formats[k]).is_some(),
        first_unsupported(formats, n) < n ==> sized_type(
            formats[first_unsupported(formats, n)],
        ).is_none(),
    decreases n,
{
    if n > 0 {
        lemma_first_unsupported(formats, n - 1);
    }
}

} // verus!
