//! Vertex formats: the components of a vertex, in memory order.

use vstd::prelude::*;

verus! {

/// Scalar type of a vertex component.
#[derive(Clone, Copy, Debug, PartialEq, Eq, Structural)]
pub enum Type {
    Integral,
    Unsigned,
    Floating,
    Boolean,
}

/// Number of scalars in a vertex component.
#[derive(Clone, Copy, Debug, PartialEq, Eq, Structural)]
pub enum Dim {
    Dim1,
    Dim2,
    Dim3,
    Dim4,
}

/// One component of a vertex: `dim` scalars of `unit_size` bytes each, placed
/// at a multiple of `align` bytes.
#[derive(Clone, Copy, Debug, PartialEq, Eq, Structural)]
pub struct VertexComponentFormat {
    pub comp_type: Type,
    pub dim: Dim,
    pub unit_size: usize,
    pub align: usize,
}

/// The components of a vertex, in memory order.
pub type VertexFormat = Vec<VertexComponentFormat>;

/// Number of scalars of a dimension.
pub open spec fn dim_size(d: Dim) -> int {
    match d {
        Dim::Dim1 => 1,
        Dim::Dim2 => 2,
        Dim::Dim3 => 3,
        Dim::Dim4 => 4,
    }
}

/// Bytes that a component occupies.
pub open spec fn weight(f: VertexComponentFormat) -> int {
    dim_size(f.dim) * f.unit_size
}

/// The smallest multiple of `align` that is not below `off`.
pub open spec fn align_up(off: int, align: int) -> int {
    if off % align == 0 {
        off
    } else {
        off - off % align + align
    }
}

/// Byte offset of component `i` in an interleaved vertex: every component is
/// placed at the first multiple of its alignment after the end of the one
/// before it, and the first at 0.
pub open spec fn offset_at(formats: Seq<VertexComponentFormat>, i: int) -> int
    decreases i,
{
    if i <= 0 {
        0
    } else {
        align_up(
            offset_at(formats, i - 1) + weight(formats[i - 1]),
            formats[i].align as int,
        )
    }
}

/// Byte offset just past component `i`.
pub open spec fn end_at(formats: Seq<VertexComponentFormat>, i: int) -> int {
    offset_at(formats, i) + weight(formats[i])
}

/// Bytes from one vertex to the next: the end of the last component, aligned
/// to the first component's alignment; 0 for a format without components.
pub open spec fn stride(formats: Seq<VertexComponentFormat>) -> int {
    if formats.len() == 0 {
        0
    } else {
        align_up(end_at(formats, formats.len() - 1), formats[0].align as int)
    }
}

/// A format that can be laid out: every alignment is at least one byte, the
/// components can be numbered by the driver, and the stride fits the machine.
pub open spec fn valid_format(formats: Seq<VertexComponentFormat>) -> bool {
    &&& forall|i: int| 0 <= i < formats.len() ==> (#[trigger] formats[i]).align >= 1
    &&& formats.len() <= u32::MAX
    &&& stride(formats) <= usize::MAX
}

/// `align_up` yields a multiple of the alignment, not below the offset and
/// less than one alignment above it, and no smaller multiple does.
pub proof fn lemma_align_up(off: int, align: int)
    requires
        0 <= off,
        1 <= align,
    ensures
        align_up(off, align) % align == 0,
        off <= align_up(off, align) < off + align,
        forall|m: int| off <= m && #[trigger] (m % align) == 0 ==> align_up(off, align) <= m,
{
    let r = align_up(off, align);
    vstd::arithmetic::div_mod::lemma_fundamental_div_mod(off, align);
    vstd::arithmetic::div_mod::lemma_mod_bound(off, align);
    if off % align != 0 {
        assert(r == align * (off / align + 1)) by (nonlinear_arith)
            requires
                r == off - off % align + align,
                off == align * (off / align) + off % align,
        ;
        vstd::arithmetic::div_mod::lemma_mod_multiples_basic(off / align + 1, align);
        assert((align * (off / align + 1)) % align == 0) by {
            vstd::arithmetic::mul::lemma_mul_is_commutative(align, off / align + 1);
        }
    }
    assert forall|m: int| off <= m && #[trigger] (m % align) == 0 implies r <= m by {
        if m < r {
            vstd::arithmetic::div_mod::lemma_fundamental_div_mod(m, align);
            vstd::arithmetic::div_mod::lemma_fundamental_div_mod(r, align);
            let qm = m / align;
            let qr = r / align;
            assert(m == align * qm);
            assert(r == align * qr);
            assert(qm < qr) by (nonlinear_arith)
                requires
                    align * qm < align * qr,
                    1 <= align,
            ;
            assert(r - m >= align) by (nonlinear_arith)
                requires
                    r == align * qr,
                    m == align * qm,
                    qm + 1 <= qr,
                    1 <= align,
            ;
        }
    }
}

/// In a format with positive alignments, offsets and ends are non-negative,
/// and each component ends no earlier than it starts.
pub proof fn lemma_layout_nonnegative(formats: Seq<VertexComponentFormat>, i: int)
    requires
        forall|k: int| 0 <= k < formats.len() ==> (#[trigger] formats[k]).align >= 1,
        0 <= i < formats.len(),
    ensures
        0 <= offset_at(formats, i) <= end_at(formats, i),
    decreases i,
{
    assert(weight(formats[i]) >= 0) by (nonlinear_arith)
        requires
            weight(formats[i]) == dim_size(formats[i].dim) * formats[i].unit_size,
            dim_size(formats[i].dim) >= 1,
            formats[i].unit_size >= 0,
    ;
    if i > 0 {
        lemma_layout_nonnegative(formats, i - 1);
        lemma_align_up(end_at(formats, i - 1), formats[i].align as int);
    }
}

/// Offsets never decrease along a format, and each is a multiple of its
/// component's alignment.
pub proof fn lemma_offsets_ordered_and_aligned(
    formats: Seq<VertexComponentFormat>,
    i: int,
    j: int,
)
    requires
        forall|k: int| 0 <= k < formats.len() ==> (#[trigger] formats[k]).align >= 1,
        0 <= i <= j < formats.len(),
    ensures
        offset_at(formats, i) <= offset_at(formats, j),
        end_at(formats, i) <= end_at(formats, j) || i == j,
        i < j ==> end_at(formats, i) <= offset_at(formats, j),
        offset_at(formats, j) % (formats[j].align as int) == 0,
    decreases j - i,
{
    lemma_layout_nonnegative(formats, j);
    if j > 0 {
        lemma_layout_nonnegative(formats, j - 1);
        lemma_align_up(end_at(formats, j - 1), formats[j].align as int);
    } else {
        vstd::arithmetic::div_mod::lemma_small_mod(0, formats[j].align as nat);
    }
    if i < j {
        lemma_offsets_ordered_and_aligned(formats, i, j - 1);
    }
}

/// The stride is a multiple of the first component's alignment and covers
/// every component.
pub proof fn lemma_stride_covers(formats: Seq<VertexComponentFormat>, i: int)
    requires
        forall|k: int| 0 <= k < formats.len() ==> (#[trigger] formats[k]).align >= 1,
        0 <= i < formats.len(),
    ensures
        end_at(formats, i) <= stride(formats),
        stride(formats) % (formats[0].align as int) == 0,
{
    let last = formats.len() - 1;
    lemma_layout_nonnegative(formats, last);
    lemma_align_up(end_at(formats, last), formats[0].align as int);
    lemma_offsets_ordered_and_aligned(formats, i, last);
}

} // verus!
