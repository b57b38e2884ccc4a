//! Textures: targets, sampler state, mip storage, upload and readback.

use vstd::prelude::*;
use vstd::arithmetic::power2::pow2;
use crate::call::Call;
use crate::glenum;
use crate::pixel::{channels, gl_pixel_format, pixel_components, resolve, PixelFormat};

verus! {

/// A driver texture object and the target it binds to.
#[derive(Clone, Copy, Debug, PartialEq, Eq, Structural)]
pub struct GLTexture {
    pub handle: u32,
    pub target: u32,
}

/// How texture coordinates outside the unit range are treated.
#[derive(Clone, Copy, Debug, PartialEq, Eq, Structural)]
pub enum Wrap {
    ClampToEdge,
    Repeat,
    MirroredRepeat,
}

/// How texels are sampled when the texture is scaled.
#[derive(Clone, Copy, Debug, PartialEq, Eq, Structural)]
pub enum Filter {
    Nearest,
    Linear,
}

/// Depth comparison of a sampler that reads a depth texture.
#[derive(Clone, Copy, Debug, PartialEq, Eq, Structural)]
pub enum DepthComparison {
    Never,
    Always,
    Equal,
    NotEqual,
    Less,
    LessOrEqual,
    Greater,
    GreaterOrEqual,
}

/// Sampler configuration of a texture.
#[derive(Clone, Copy, Debug, PartialEq, Eq, Structural)]
pub struct Sampler {
    pub wrap_r: Wrap,
    pub wrap_s: Wrap,
    pub wrap_t: Wrap,
    pub minification: Filter,
    pub magnification: Filter,
    pub depth_comparison: Option<DepthComparison>,
}

/// Whether a texture is a single image or an array of layers.
#[derive(Clone, Copy, Debug, PartialEq, Eq, Structural)]
pub enum Layering {
    Flat,
    Layered,
}

/// Dimensionality of a texture.
#[derive(Clone, Copy, Debug, PartialEq, Eq, Structural)]
pub enum Dim {
    Dim1,
    Dim2,
    Dim3,
    Cubemap,
}

/// A face of a cubemap.
#[derive(Clone, Copy, Debug, PartialEq, Eq, Structural)]
pub enum CubeFace {
    PositiveX,
    NegativeX,
    PositiveY,
    NegativeY,
    PositiveZ,
    NegativeZ,
}

/// Extent of a texture or of a region of it; a cubemap has one edge length.
#[derive(Clone, Copy, Debug, PartialEq, Eq, Structural)]
pub enum Size {
    Dim1(u32),
    Dim2(u32, u32),
    Dim3(u32, u32, u32),
    Cubemap(u32),
}

/// Position of a region in a texture.
#[derive(Clone, Copy, Debug, PartialEq, Eq, Structural)]
pub enum Offset {
    Dim1(u32),
    Dim2(u32, u32),
    Dim3(u32, u32, u32),
    Cubemap(u32, u32, CubeFace),
}

#[derive(Clone, Copy, Debug, PartialEq, Eq, Structural)]
pub enum TextureError {
    /// The backend has no storage for this pixel format, or none for this
    /// combination of layering and dimensionality.
    UnsupportedFormat,
    /// The extent that the driver reports for a texture is negative, or its
    /// texels do not fit the address space.
    InvalidExtent,
}

impl Size {
    pub open spec fn dimension(self) -> Dim {
        match self {
            Size::Dim1(_) => Dim::Dim1,
            Size::Dim2(_, _) => Dim::Dim2,
            Size::Dim3(_, _, _) => Dim::Dim3,
            Size::Cubemap(_) => Dim::Cubemap,
        }
    }

    pub open spec fn spec_width(self) -> u32 {
        match self {
            Size::Dim1(w) => w,
            Size::Dim2(w, _) => w,
            Size::Dim3(w, _, _) => w,
            Size::Cubemap(s) => s,
        }
    }

    /// 1 where the extent has no second axis.
    pub open spec fn spec_height(self) -> u32 {
        match self {
            Size::Dim1(_) => 1,
            Size::Dim2(_, h) => h,
            Size::Dim3(_, h, _) => h,
            Size::Cubemap(s) => s,
        }
    }

    /// 1 where the extent has no third axis; the six faces of a cubemap.
    pub open spec fn spec_depth(self) -> u32 {
        match self {
            Size::Dim1(_) => 1,
            Size::Dim2(_, _) => 1,
            Size::Dim3(_, _, d) => d,
            Size::Cubemap(_) => 6,
        }
    }

    /// Number of texels in the extent.
    pub open spec fn capacity(self) -> int {
        self.spec_width() * self.spec_height() * self.spec_depth()
    }

    pub fn dim(&self) -> (d: Dim)
        ensures
            d == self.dimension(),
    {
        match self {
            Size::Dim1(_) => Dim::Dim1,
            Size::Dim2(_, _) => Dim::Dim2,
            Size::Dim3(_, _, _) => Dim::Dim3,
            Size::Cubemap(_) => Dim::Cubemap,
        }
    }

    #[verifier::when_used_as_spec(spec_width)]
    pub fn width(self) -> (w: u32)
        ensures
            w == self.spec_width(),
    {
        match self {
            Size::Dim1(w) => w,
            Size::Dim2(w, _) => w,
            Size::Dim3(w, _, _) => w,
            Size::Cubemap(s) => s,
        }
    }

    #[verifier::when_used_as_spec(spec_height)]
    pub fn height(self) -> (h: u32)
        ensures
            h == self.spec_height(),
    {
        match self {
            Size::Dim1(_) => 1,
            Size::Dim2(_, h) => h,
            Size::Dim3(_, h, _) => h,
            Size::Cubemap(s) => s,
        }
    }

    #[verifier::when_used_as_spec(spec_depth)]
    pub fn depth(self) -> (d: u32)
        ensures
            d == self.spec_depth(),
    {
        match self {
            Size::Dim1(_) => 1,
            Size::Dim2(_, _) => 1,
            Size::Dim3(_, _, d) => d,
            Size::Cubemap(_) => 6,
        }
    }
}

impl Offset {
    pub open spec fn dimension(self) -> Dim {
        match self {
            Offset::Dim1(_) => Dim::Dim1,
            Offset::Dim2(_, _) => Dim::Dim2,
            Offset::Dim3(_, _, _) => Dim::Dim3,
            Offset::Cubemap(_, _, _) => Dim::Cubemap,
        }
    }

    pub open spec fn spec_x(self) -> u32 {
        match self {
            Offset::Dim1(x) => x,
            Offset::Dim2(x, _) => x,
            Offset::Dim3(x, _, _) => x,
            Offset::Cubemap(x, _, _) => x,
        }
    }

    /// 0 where the position has no second axis.
    pub open spec fn spec_y(self) -> u32 {
        match self {
            Offset::Dim1(_) => 0,
            Offset::Dim2(_, y) => y,
            Offset::Dim3(_, y, _) => y,
            Offset::Cubemap(_, y, _) => y,
        }
    }

    /// 0 where the position has no third axis; the index of the face of a
    /// cubemap.
    pub open spec fn spec_z(self) -> u32 {
        match self {
            Offset::Dim1(_) => 0,
            Offset::Dim2(_, _) => 0,
            Offset::Dim3(_, _, z) => z,
            Offset::Cubemap(_, _, face) => face_index(face),
        }
    }

    #[verifier::when_used_as_spec(spec_x)]
    pub fn x(self) -> (x: u32)
        ensures
            x == self.spec_x(),
    {
        match self {
            Offset::Dim1(x) => x,
            Offset::Dim2(x, _) => x,
            Offset::Dim3(x, _, _) => x,
            Offset::Cubemap(x, _, _) => x,
        }
    }

    #[verifier::when_used_as_spec(spec_y)]
    pub fn y(self) -> (y: u32)
        ensures
            y == self.spec_y(),
    {
        match self {
            Offset::Dim1(_) => 0,
            Offset::Dim2(_, y) => y,
            Offset::Dim3(_, y, _) => y,
            Offset::Cubemap(_, y, _) => y,
        }
    }

    #[verifier::when_used_as_spec(spec_z)]
    pub fn z(self) -> (z: u32)
        ensures
            z == self.spec_z(),
    {
        match self {
            Offset::Dim1(_) => 0,
            Offset::Dim2(_, _) => 0,
            Offset::Dim3(_, _, z) => z,
            Offset::Cubemap(_, _, face) => match face {
                CubeFace::PositiveX => 0,
                CubeFace::NegativeX => 1,
                CubeFace::PositiveY => 2,
                CubeFace::NegativeY => 3,
                CubeFace::PositiveZ => 4,
                CubeFace::NegativeZ => 5,
            },
        }
    }
}

/// The sampler that clamps on every axis, filters linearly and compares no
/// depth.
pub open spec fn default_sampler() -> Sampler {
    Sampler {
        wrap_r: Wrap::ClampToEdge,
        wrap_s: Wrap::ClampToEdge,
        wrap_t: Wrap::ClampToEdge,
        minification: Filter::Linear,
        magnification: Filter::Linear,
        depth_comparison: None,
    }
}

impl Default for Sampler {
    fn default() -> (s: Sampler)
        ensures
            s == default_sampler(),
    {
        Sampler {
            wrap_r: Wrap::ClampToEdge,
            wrap_s: Wrap::ClampToEdge,
            wrap_t: Wrap::ClampToEdge,
            minification: Filter::Linear,
            magnification: Filter::Linear,
            depth_comparison: None,
        }
    }
}

impl GLTexture {
    pub fn new(handle: u32, target: u32) -> (texture: GLTexture)
        ensures
            texture == (GLTexture { handle, target }),
    {
        GLTexture { handle, target }
    }
}

/// Binding target of a combination of layering and dimensionality; arrays of
/// 3D textures have none.
pub open spec fn target_of(l: Layering, d: Dim) -> Option<u32> {
    match l {
        Layering::Flat => match d {
            Dim::Dim1 => Some(glenum::TEXTURE_1D),
            Dim::Dim2 => Some(glenum::TEXTURE_2D),
            Dim::Dim3 => Some(glenum::TEXTURE_3D),
            Dim::Cubemap => Some(glenum::TEXTURE_CUBE_MAP),
        },
        Layering::Layered => match d {
            Dim::Dim1 => Some(glenum::TEXTURE_1D_ARRAY),
            Dim::Dim2 => Some(glenum::TEXTURE_2D_ARRAY),
            Dim::Dim3 => None,
            Dim::Cubemap => Some(glenum::TEXTURE_CUBE_MAP_ARRAY),
        },
    }
}

pub open spec fn wrap_code(wrap: Wrap) -> u32 {
    match wrap {
        Wrap::ClampToEdge => glenum::CLAMP_TO_EDGE,
        Wrap::Repeat => glenum::REPEAT,
        Wrap::MirroredRepeat => glenum::MIRRORED_REPEAT,
    }
}

pub open spec fn filter_code(filter: Filter) -> u32 {
    match filter {
        Filter::Nearest => glenum::NEAREST,
        Filter::Linear => glenum::LINEAR,
    }
}

pub open spec fn depth_comparison_code(fun: DepthComparison) -> u32 {
    match fun {
        DepthComparison::Never => glenum::NEVER,
        DepthComparison::Always => glenum::ALWAYS,
        DepthComparison::Equal => glenum::EQUAL,
        DepthComparison::NotEqual => glenum::NOTEQUAL,
        DepthComparison::Less => glenum::LESS,
        DepthComparison::LessOrEqual => glenum::LEQUAL,
        DepthComparison::Greater => glenum::GREATER,
        DepthComparison::GreaterOrEqual => glenum::GEQUAL,
    }
}

/// Position of a face among the six faces of a cubemap.
pub open spec fn face_index(face: CubeFace) -> u32 {
    match face {
        CubeFace::PositiveX => 0,
        CubeFace::NegativeX => 1,
        CubeFace::PositiveY => 2,
        CubeFace::NegativeY => 3,
        CubeFace::PositiveZ => 4,
        CubeFace::NegativeZ => 5,
    }
}

/// Extent of mip level `level` along an axis of `extent` texels: the extent
/// halved `level` times, rounding down.
pub open spec fn mip_extent(extent: u32, level: nat) -> u32 {
    (extent as int / pow2(level) as int) as u32
}

/// Calls that restrict the mip chain of the bound texture to `mipmaps`
/// levels.
pub open spec fn levels(target: u32, mipmaps: usize) -> Seq<Call> {
    seq![
        Call::TexParameteri { target, pname: glenum::TEXTURE_BASE_LEVEL, param: 0 },
        Call::TexParameteri {
            target,
            pname: glenum::TEXTURE_MAX_LEVEL,
            param: (mipmaps - 1) as i32,
        },
    ]
}

/// Calls that apply a sampler to the bound texture: the three wraps, the two
/// filters, then the depth comparison with its mode, or the mode alone where
/// there is none.
pub open spec fn sampling(target: u32, sampler: Sampler) -> Seq<Call> {
    seq![
        Call::TexParameteri {
            target,
            pname: glenum::TEXTURE_WRAP_R,
            param: wrap_code(sampler.wrap_r) as i32,
        },
        Call::TexParameteri {
            target,
            pname: glenum::TEXTURE_WRAP_S,
            param: wrap_code(sampler.wrap_s) as i32,
        },
        Call::TexParameteri {
            target,
            pname: glenum::TEXTURE_WRAP_T,
            param: wrap_code(sampler.wrap_t) as i32,
        },
        Call::TexParameteri {
            target,
            pname: glenum::TEXTURE_MIN_FILTER,
            param: filter_code(sampler.minification) as i32,
        },
        Call::TexParameteri {
            target,
            pname: glenum::TEXTURE_MAG_FILTER,
            param: filter_code(sampler.magnification) as i32,
        },
    ] + (match sampler.depth_comparison {
        Some(fun) => seq![
            Call::TexParameteri {
                target,
                pname: glenum::TEXTURE_COMPARE_FUNC,
                param: depth_comparison_code(fun) as i32,
            },
            Call::TexParameteri {
                target,
                pname: glenum::TEXTURE_COMPARE_MODE,
                param: glenum::COMPARE_REF_TO_TEXTURE as i32,
            },
        ],
        None => seq![
            Call::TexParameteri {
                target,
                pname: glenum::TEXTURE_COMPARE_MODE,
                param: glenum::NONE as i32,
            },
        ],
    })
}

/// The storage call of mip level `level` of a flat texture.
pub open spec fn storage_level(size: Size, level: int, triple: (u32, u32, u32)) -> Call {
    match size {
        Size::Dim1(w) => Call::TexImage1D {
            target: glenum::TEXTURE_1D,
            level: level as usize,
            internal_format: triple.1,
            width: mip_extent(w, level as nat),
            format: triple.0,
            ty: triple.2,
        },
        Size::Dim2(w, h) => Call::TexImage2D {
            target: glenum::TEXTURE_2D,
            level: level as usize,
            internal_format: triple.1,
            width: mip_extent(w, level as nat),
            height: mip_extent(h, level as nat),
            format: triple.0,
            ty: triple.2,
        },
        Size::Dim3(w, h, d) => Call::TexImage3D {
            target: glenum::TEXTURE_3D,
            level: level as usize,
            internal_format: triple.1,
            width: mip_extent(w, level as nat),
            height: mip_extent(h, level as nat),
            depth: mip_extent(d, level as nat),
            format: triple.0,
            ty: triple.2,
        },
        Size::Cubemap(s) => Call::TexImage2D {
            target: glenum::TEXTURE_CUBE_MAP,
            level: level as usize,
            internal_format: triple.1,
            width: mip_extent(s, level as nat),
            height: mip_extent(s, level as nat),
            format: triple.0,
            ty: triple.2,
        },
    }
}

/// Storage calls of a flat texture: one per mip level, from level 0 up.
pub open spec fn storage(size: Size, mipmaps: usize, triple: (u32, u32, u32)) -> Seq<Call> {
    Seq::new(mipmaps as nat, |level: int| storage_level(size, level, triple))
}

/// Whether the backend can create a texture of this layering and format.
pub open spec fn creatable(l: Layering, pf: PixelFormat) -> bool {
    l == Layering::Flat && resolve(pf).is_some()
}

/// Calls that configure and allocate the bound texture.
pub open spec fn configuration(
    target: u32,
    size: Size,
    mipmaps: usize,
    pf: PixelFormat,
    sampler: Sampler,
) -> Seq<Call> {
    levels(target, mipmaps) + sampling(target, sampler) + storage(
        size,
        mipmaps,
        resolve(pf).unwrap(),
    )
}

/// Calls that create a flat texture on `handle`: the texture is bound,
/// configured and allocated, and unbound.
pub open spec fn creation(
    handle: u32,
    size: Size,
    mipmaps: usize,
    pf: PixelFormat,
    sampler: Sampler,
) -> Seq<Call> {
    let target = target_of(Layering::Flat, size.dimension()).unwrap();
    seq![Call::BindTexture { target, texture: handle }] + configuration(
        target,
        size,
        mipmaps,
        pf,
        sampler,
    ) + seq![Call::BindTexture { target, texture: 0 }]
}

/// The call that writes the region of `size` at `off` of mip level 0. A face
/// of a cubemap is addressed as a layer, counted from the positive X face.
pub open spec fn upload(target: u32, off: Offset, size: Size, triple: (u32, u32, u32)) -> Call {
    match size {
        Size::Dim1(w) => Call::TexSubImage1D {
            target,
            level: 0,
            x: off.spec_x(),
            width: w,
            format: triple.0,
            ty: triple.2,
        },
        Size::Dim2(w, h) => Call::TexSubImage2D {
            target,
            level: 0,
            x: off.spec_x(),
            y: off.spec_y(),
            width: w,
            height: h,
            format: triple.0,
            ty: triple.2,
        },
        Size::Dim3(w, h, d) => Call::TexSubImage3D {
            target,
            level: 0,
            x: off.spec_x(),
            y: off.spec_y(),
            z: off.spec_z(),
            width: w,
            height: h,
            depth: d,
            format: triple.0,
            ty: triple.2,
        },
        Size::Cubemap(s) => Call::TexSubImage3D {
            target,
            level: 0,
            x: off.spec_x(),
            y: off.spec_y(),
            z: (glenum::TEXTURE_CUBE_MAP_POSITIVE_X + off.spec_z()) as u32,
            width: s,
            height: s,
            depth: 1,
            format: triple.0,
            ty: triple.2,
        },
    }
}

/// Calls that write a region of a texture, and regenerate its mip chain
/// where asked.
pub open spec fn transfer(
    texture: GLTexture,
    gen_mipmaps: bool,
    off: Offset,
    size: Size,
    triple: (u32, u32, u32),
) -> Seq<Call> {
    seq![
        Call::BindTexture { target: texture.target, texture: texture.handle },
        upload(texture.target, off, size, triple),
    ] + (if gen_mipmaps {
        seq![Call::GenerateMipmap { target: texture.target }]
    } else {
        Seq::empty()
    }) + seq![Call::BindTexture { target: texture.target, texture: 0 }]
}

/// Halving an extent once more gives the extent of the next mip level.
pub proof fn lemma_mip_extent_step(extent: u32, level: nat)
    ensures
        mip_extent(extent, 0) == extent,
        mip_extent(extent, level + 1) == mip_extent(extent, level) / 2,
        mip_extent(extent, level) <= extent,
{
    vstd::arithmetic::power2::lemma2_to64();
    vstd::arithmetic::power2::lemma_pow2_pos(level);
    vstd::arithmetic::power2::lemma_pow2_unfold(level + 1);
    let p = pow2(level) as int;
    vstd::arithmetic::div_mod::lemma_div_denominator(extent as int, p, 2);
    vstd::arithmetic::div_mod::lemma_div_pos_is_pos(extent as int, p);
    vstd::arithmetic::div_mod::lemma_div_nonincreasing(extent as int, p);
    assert(pow2(level + 1) as int == p * 2) by (nonlinear_arith)
        requires
            pow2(level + 1) == 2 * pow2(level),
            p == pow2(level) as int,
    ;
}

/// Binding target of a combination of layering and dimensionality, or `None`
/// for an array of 3D textures.
pub fn to_target(l: Layering, d: Dim) -> (target: Option<u32>)
    ensures
        target == target_of(l, d),
{
    match l {
        Layering::Flat => match d {
            Dim::Dim1 => Some(glenum::TEXTURE_1D),
            Dim::Dim2 => Some(glenum::TEXTURE_2D),
            Dim::Dim3 => Some(glenum::TEXTURE_3D),
            Dim::Cubemap => Some(glenum::TEXTURE_CUBE_MAP),
        },
        Layering::Layered => match d {
            Dim::Dim1 => Some(glenum::TEXTURE_1D_ARRAY),
            Dim::Dim2 => Some(glenum::TEXTURE_2D_ARRAY),
            Dim::Dim3 => None,
            Dim::Cubemap => Some(glenum::TEXTURE_CUBE_MAP_ARRAY),
        },
    }
}

pub fn from_wrap(wrap: Wrap) -> (code: u32)
    ensures
        code == wrap_code(wrap),
        code <= i32::MAX,
{
    match wrap {
        Wrap::ClampToEdge => glenum::CLAMP_TO_EDGE,
        Wrap::Repeat => glenum::REPEAT,
        Wrap::MirroredRepeat => glenum::MIRRORED_REPEAT,
    }
}

pub fn from_filter(filter: Filter) -> (code: u32)
    ensures
        code == filter_code(filter),
        code <= i32::MAX,
{
    match filter {
        Filter::Nearest => glenum::NEAREST,
        Filter::Linear => glenum::LINEAR,
    }
}

pub fn from_depth_comparison(fun: DepthComparison) -> (code: u32)
    ensures
        code == depth_comparison_code(fun),
        code <= i32::MAX,
{
    match fun {
        DepthComparison::Never => glenum::NEVER,
        DepthComparison::Always => glenum::ALWAYS,
        DepthComparison::Equal => glenum::EQUAL,
        DepthComparison::NotEqual => glenum::NOTEQUAL,
        DepthComparison::Less => glenum::LESS,
        DepthComparison::LessOrEqual => glenum::LEQUAL,
        DepthComparison::Greater => glenum::GREATER,
        DepthComparison::GreaterOrEqual => glenum::GEQUAL,
    }
}

/// Calls that restrict the mip chain of the bound texture to `mipmaps`
/// levels.
pub fn set_texture_levels(target: u32, mipmaps: usize) -> (calls: Vec<Call>)
    requires
        mipmaps <= i32::MAX,
    ensures
        calls@ == levels(target, mipmaps),
{
    vec![
        Call::TexParameteri { target, pname: glenum::TEXTURE_BASE_LEVEL, param: 0 },
        Call::TexParameteri {
            target,
            pname: glenum::TEXTURE_MAX_LEVEL,
            param: mipmaps as i32 - 1,
        },
    ]
}

/// Calls that apply a sampler to the bound texture.
pub fn apply_sampler_to_texture(target: u32, sampler: &Sampler) -> (calls: Vec<Call>)
    ensures
        calls@ == sampling(target, *sampler),
{
    let mut calls = vec![
        Call::TexParameteri {
            target,
            pname: glenum::TEXTURE_WRAP_R,
            param: from_wrap(sampler.wrap_r) as i32,
        },
        Call::TexParameteri {
            target,
            pname: glenum::TEXTURE_WRAP_S,
            param: from_wrap(sampler.wrap_s) as i32,
        },
        Call::TexParameteri {
            target,
            pname: glenum::TEXTURE_WRAP_T,
            param: from_wrap(sampler.wrap_t) as i32,
        },
        Call::TexParameteri {
            target,
            pname: glenum::TEXTURE_MIN_FILTER,
            param: from_filter(sampler.minification) as i32,
        },
        Call::TexParameteri {
            target,
            pname: glenum::TEXTURE_MAG_FILTER,
            param: from_filter(sampler.magnification) as i32,
        },
    ];
    let ghost wraps = calls@;
    match sampler.depth_comparison {
        Some(fun) => {
            calls.push(
                Call::TexParameteri {
                    target,
                    pname: glenum::TEXTURE_COMPARE_FUNC,
                    param: from_depth_comparison(fun) as i32,
                },
            );
            calls.push(
                Call::TexParameteri {
                    target,
                    pname: glenum::TEXTURE_COMPARE_MODE,
                    param: glenum::COMPARE_REF_TO_TEXTURE as i32,
                },
            );
        },
        None => {
            calls.push(
                Call::TexParameteri {
                    target,
                    pname: glenum::TEXTURE_COMPARE_MODE,
                    param: glenum::NONE as i32,
                },
            );
        },
    }
    assert(calls@ =~= sampling(target, *sampler));
    calls
}

/// Storage calls of a 1D texture, one per mip level.
pub fn create_texture_1d_storage(format: u32, iformat: u32, encoding: u32, w: u32, mipmaps: usize) -> (calls:
    Vec<Call>)
    ensures
        calls@ == storage(Size::Dim1(w), mipmaps, (format, iformat, encoding)),
{
    let mut calls: Vec<Call> = Vec::new();
    let mut width = w;
    let mut level: usize = 0;
    proof {
        lemma_mip_extent_step(w, 0);
    }
    while level < mipmaps
        invariant
            level <= mipmaps,
            width == mip_extent(w, level as nat),
            calls@ == storage(Size::Dim1(w), level, (format, iformat, encoding)),
        decreases mipmaps - level,
    {
        calls.push(
            Call::TexImage1D {
                target: glenum::TEXTURE_1D,
                level,
                internal_format: iformat,
                width,
                format,
                ty: encoding,
            },
        );
        proof {
            lemma_mip_extent_step(w, level as nat);
        }
        width = width / 2;
        level += 1;
        assert(calls@ =~= storage(Size::Dim1(w), level, (format, iformat, encoding)));
    }
    calls
}

/// Storage calls of a 2D texture, one per mip level.
pub fn create_texture_2d_storage(
    format: u32,
    iformat: u32,
    encoding: u32,
    w: u32,
    h: u32,
    mipmaps: usize,
) -> (calls: Vec<Call>)
    ensures
        calls@ == storage(Size::Dim2(w, h), mipmaps, (format, iformat, encoding)),
{
    let mut calls: Vec<Call> = Vec::new();
    let mut width = w;
    let mut height = h;
    let mut level: usize = 0;
    proof {
        lemma_mip_extent_step(w, 0);
        lemma_mip_extent_step(h, 0);
    }
    while level < mipmaps
        invariant
            level <= mipmaps,
            width == mip_extent(w, level as nat),
            height == mip_extent(h, level as nat),
            calls@ == storage(Size::Dim2(w, h), level, (format, iformat, encoding)),
        decreases mipmaps - level,
    {
        calls.push(
            Call::TexImage2D {
                target: glenum::TEXTURE_2D,
                level,
                internal_format: iformat,
                width,
                height,
                format,
                ty: encoding,
            },
        );
        proof {
            lemma_mip_extent_step(w, level as nat);
            lemma_mip_extent_step(h, level as nat);
        }
        width = width / 2;
        height = height / 2;
        level += 1;
        assert(calls@ =~= storage(Size::Dim2(w, h), level, (format, iformat, encoding)));
    }
    calls
}

/// Storage calls of a 3D texture, one per mip level.
pub fn create_texture_3d_storage(
    format: u32,
    iformat: u32,
    encoding: u32,
    w: u32,
    h: u32,
    d: u32,
    mipmaps: usize,
) -> (calls: Vec<Call>)
    ensures
        calls@ == storage(Size::Dim3(w, h, d), mipmaps, (format, iformat, encoding)),
{
    let mut calls: Vec<Call> = Vec::new();
    let mut width = w;
    let mut height = h;
    let mut depth = d;
    let mut level: usize = 0;
    proof {
        lemma_mip_extent_step(w, 0);
        lemma_mip_extent_step(h, 0);
        lemma_mip_extent_step(d, 0);
    }
    while level < mipmaps
        invariant
            level <= mipmaps,
            width == mip_extent(w, level as nat),
            height == mip_extent(h, level as nat),
            depth == mip_extent(d, level as nat),
            calls@ == storage(Size::Dim3(w, h, d), level, (format, iformat, encoding)),
        decreases mipmaps - level,
    {
        calls.push(
            Call::TexImage3D {
                target: glenum::TEXTURE_3D,
                level,
                internal_format: iformat,
                width,
                height,
                depth,
                format,
                ty: encoding,
            },
        );
        proof {
            lemma_mip_extent_step(w, level as nat);
            lemma_mip_extent_step(h, level as nat);
            lemma_mip_extent_step(d, level as nat);
        }
        width = width / 2;
        height = height / 2;
        depth = depth / 2;
        level += 1;
        assert(calls@ =~= storage(Size::Dim3(w, h, d), level, (format, iformat, encoding)));
    }
    calls
}

/// Storage calls of a cubemap of edge length `s`, one per mip level.
pub fn create_cubemap_storage(format: u32, iformat: u32, encoding: u32, s: u32, mipmaps: usize) -> (calls:
    Vec<Call>)
    ensures
        calls@ == storage(Size::Cubemap(s), mipmaps, (format, iformat, encoding)),
{
    let mut calls: Vec<Call> = Vec::new();
    let mut edge = s;
    let mut level: usize = 0;
    proof {
        lemma_mip_extent_step(s, 0);
    }
    while level < mipmaps
        invariant
            level <= mipmaps,
            edge == mip_extent(s, level as nat),
            calls@ == storage(Size::Cubemap(s), level, (format, iformat, encoding)),
        decreases mipmaps - level,
    {
        calls.push(
            Call::TexImage2D {
                target: glenum::TEXTURE_CUBE_MAP,
                level,
                internal_format: iformat,
                width: edge,
                height: edge,
                format,
                ty: encoding,
            },
        );
        proof {
            lemma_mip_extent_step(s, level as nat);
        }
        edge = edge / 2;
        level += 1;
        assert(calls@ =~= storage(Size::Cubemap(s), level, (format, iformat, encoding)));
    }
    calls
}

/// Storage calls of a texture of `mipmaps` levels.
///
/// Fails for a pixel format without a driver encoding and for layered
/// textures, for which the backend has no storage.
pub fn create_texture_storage(l: Layering, size: Size, mipmaps: usize, pf: PixelFormat) -> (r:
    Result<Vec<Call>, TextureError>)
    ensures
        creatable(l, pf) ==> r is Ok && r->Ok_0@ == storage(size, mipmaps, resolve(pf).unwrap()),
        !creatable(l, pf) ==> r == Err::<Vec<Call>, TextureError>(
            TextureError::UnsupportedFormat,
        ),
{
    match gl_pixel_format(pf) {
        Some((format, iformat, encoding)) => match (l, size) {
            (Layering::Flat, Size::Dim1(w)) => Ok(
                create_texture_1d_storage(format, iformat, encoding, w, mipmaps),
            ),
            (Layering::Flat, Size::Dim2(w, h)) => Ok(
                create_texture_2d_storage(format, iformat, encoding, w, h, mipmaps),
            ),
            (Layering::Flat, Size::Dim3(w, h, d)) => Ok(
                create_texture_3d_storage(format, iformat, encoding, w, h, d, mipmaps),
            ),
            (Layering::Flat, Size::Cubemap(s)) => Ok(
                create_cubemap_storage(format, iformat, encoding, s, mipmaps),
            ),
            _ => Err(TextureError::UnsupportedFormat),
        },
        None => Err(TextureError::UnsupportedFormat),
    }
}

/// Calls that configure and allocate the texture bound to `target`: its mip
/// range, its sampler, then its storage.
pub fn create_texture(
    target: u32,
    l: Layering,
    size: Size,
    mipmaps: usize,
    pf: PixelFormat,
    sampler: &Sampler,
) -> (r: Result<Vec<Call>, TextureError>)
    requires
        mipmaps <= i32::MAX,
    ensures
        creatable(l, pf) ==> r is Ok && r->Ok_0@ == configuration(
            target,
            size,
            mipmaps,
            pf,
            *sampler,
        ),
        !creatable(l, pf) ==> r == Err::<Vec<Call>, TextureError>(
            TextureError::UnsupportedFormat,
        ),
{
    let mut allocation = match create_texture_storage(l, size, mipmaps, pf) {
        Ok(allocation) => allocation,
        Err(e) => {
            return Err(e);
        },
    };
    let mut calls = set_texture_levels(target, mipmaps);
    let mut sampling = apply_sampler_to_texture(target, sampler);
    calls.append(&mut sampling);
    calls.append(&mut allocation);
    Ok(calls)
}

/// Creates a texture on the fresh handle `handle`.
///
/// Fails, with no call planned, for a pixel format without a driver encoding
/// and for layered textures.
pub fn new_texture(
    handle: u32,
    l: Layering,
    size: Size,
    mipmaps: usize,
    sampler: &Sampler,
    pf: PixelFormat,
) -> (r: Result<(GLTexture, Vec<Call>), TextureError>)
    requires
        mipmaps <= i32::MAX,
    ensures
        creatable(l, pf) ==> r is Ok && r->Ok_0.0 == (GLTexture {
            handle,
            target: target_of(l, size.dimension()).unwrap(),
        }) && r->Ok_0.1@ == creation(handle, size, mipmaps, pf, *sampler),
        !creatable(l, pf) ==> r == Err::<(GLTexture, Vec<Call>), TextureError>(
            TextureError::UnsupportedFormat,
        ),
{
    let target = match to_target(l, size.dim()) {
        Some(target) => target,
        None => {
            return Err(TextureError::UnsupportedFormat);
        },
    };
    let mut configuration = match create_texture(target, l, size, mipmaps, pf, sampler) {
        Ok(configuration) => configuration,
        Err(e) => {
            return Err(e);
        },
    };
    let mut calls = vec![Call::BindTexture { target, texture: handle }];
    calls.append(&mut configuration);
    calls.push(Call::BindTexture { target, texture: 0 });
    assert(calls@ =~= creation(handle, size, mipmaps, pf, *sampler));
    Ok((GLTexture::new(handle, target), calls))
}

/// The call that releases the texture's handle.
pub fn free(texture: &GLTexture) -> (calls: Vec<Call>)
    ensures
        calls@ == seq![Call::DeleteTexture { texture: texture.handle }],
{
    vec![Call::DeleteTexture { texture: texture.handle }]
}

/// The call that writes the region of `size` at `off` of mip level 0 of the
/// texture bound to `target`.
///
/// Fails for a pixel format without a driver encoding and for layered
/// textures.
pub fn upload_texels(target: u32, l: Layering, off: Offset, size: Size, pf: PixelFormat) -> (r:
    Result<Call, TextureError>)
    requires
        off.dimension() == size.dimension(),
    ensures
        creatable(l, pf) ==> r == Ok::<Call, TextureError>(
            upload(target, off, size, resolve(pf).unwrap()),
        ),
        !creatable(l, pf) ==> r == Err::<Call, TextureError>(TextureError::UnsupportedFormat),
{
    match gl_pixel_format(pf) {
        Some((format, _, encoding)) => match l {
            Layering::Flat => match size {
                Size::Dim1(w) => Ok(
                    Call::TexSubImage1D { target, level: 0, x: off.x(), width: w, format, ty: encoding },
                ),
                Size::Dim2(w, h) => Ok(
                    Call::TexSubImage2D {
                        target,
                        level: 0,
                        x: off.x(),
                        y: off.y(),
                        width: w,
                        height: h,
                        format,
                        ty: encoding,
                    },
                ),
                Size::Dim3(w, h, d) => Ok(
                    Call::TexSubImage3D {
                        target,
                        level: 0,
                        x: off.x(),
                        y: off.y(),
                        z: off.z(),
                        width: w,
                        height: h,
                        depth: d,
                        format,
                        ty: encoding,
                    },
                ),
                Size::Cubemap(s) => Ok(
                    Call::TexSubImage3D {
                        target,
                        level: 0,
                        x: off.x(),
                        y: off.y(),
                        z: glenum::TEXTURE_CUBE_MAP_POSITIVE_X + off.z(),
                        width: s,
                        height: s,
                        depth: 1,
                        format,
                        ty: encoding,
                    },
                ),
            },
            Layering::Layered => Err(TextureError::UnsupportedFormat),
        },
        None => Err(TextureError::UnsupportedFormat),
    }
}

/// Calls that write the region of `size` at `off` of a texture from caller
/// data, and regenerate the mip chain afterwards where `gen_mipmaps` is set.
pub fn upload_part(
    texture: &GLTexture,
    l: Layering,
    gen_mipmaps: bool,
    off: Offset,
    size: Size,
    pf: PixelFormat,
) -> (r: Result<Vec<Call>, TextureError>)
    requires
        off.dimension() == size.dimension(),
    ensures
        creatable(l, pf) ==> r is Ok && r->Ok_0@ == transfer(
            *texture,
            gen_mipmaps,
            off,
            size,
            resolve(pf).unwrap(),
        ),
        !creatable(l, pf) ==> r == Err::<Vec<Call>, TextureError>(
            TextureError::UnsupportedFormat,
        ),
{
    let write = match upload_texels(texture.target, l, off, size, pf) {
        Ok(write) => write,
        Err(e) => {
            return Err(e);
        },
    };
    let mut calls = vec![
        Call::BindTexture { target: texture.target, texture: texture.handle },
        write,
    ];
    if gen_mipmaps {
        calls.push(Call::GenerateMipmap { target: texture.target });
    }
    calls.push(Call::BindTexture { target: texture.target, texture: 0 });
    assert(calls@ =~= transfer(*texture, gen_mipmaps, off, size, resolve(pf).unwrap()));
    Ok(calls)
}

/// Number of texels in an extent.
pub fn dim_capacity(size: Size) -> (n: u32)
    requires
        size.capacity() <= u32::MAX,
    ensures
        n == size.capacity(),
{
    let w = size.width() as u64;
    let h = size.height() as u64;
    let d = size.depth() as u64;
    assert(w * h <= 0xFFFF_FFFE_0000_0001) by (nonlinear_arith)
        requires
            w <= 0xFFFF_FFFF,
            h <= 0xFFFF_FFFF,
    ;
    let area = w * h;
    if area == 0 || d == 0 {
        assert(w * h * d == 0) by (nonlinear_arith)
            requires
                w * h == 0 || d == 0,
        ;
        return 0;
    }
    assert(area <= w * h * d) by (nonlinear_arith)
        requires
            area == w * h,
            d >= 1,
    ;
    assert(area * d <= u32::MAX) by (nonlinear_arith)
        requires
            area == w * h,
            w * h * d <= u32::MAX,
    ;
    (area * d) as u32
}

/// The texels of a region in which every texel is `pixel`: `count` copies of
/// its bytes, one after the other.
pub fn broadcast(pixel: &[u8], count: usize) -> (texels: Vec<u8>)
    ensures
        texels@.len() == count * pixel@.len(),
        forall|i: int|
            0 <= i < texels@.len() ==> #[trigger] texels@[i] == pixel@[i % (pixel@.len() as int)],
{
    let len = pixel.len();
    let mut texels: Vec<u8> = Vec::new();
    let mut k: usize = 0;
    assert(0 * len == 0) by (nonlinear_arith);
    while k < count
        invariant
            k <= count,
            len == pixel@.len(),
            texels@.len() == k * len,
            forall|i: int|
                0 <= i < texels@.len() ==> #[trigger] texels@[i] == pixel@[i % (len as int)],
        decreases count - k,
    {
        let mut j: usize = 0;
        while j < len
            invariant
                j <= len,
                k < count,
                len == pixel@.len(),
                texels@.len() == k * len + j,
                forall|i: int|
                    0 <= i < texels@.len() ==> #[trigger] texels@[i] == pixel@[i % (len as int)],
            decreases len - j,
        {
            proof {
                vstd::arithmetic::div_mod::lemma_mod_multiples_vanish(
                    k as int,
                    j as int,
                    len as int,
                );
                vstd::arithmetic::div_mod::lemma_small_mod(j as nat, len as nat);
                vstd::arithmetic::mul::lemma_mul_is_commutative(k as int, len as int);
            }
            texels.push(pixel[j]);
            j += 1;
        }
        assert((k + 1) * len == k * len + len) by (nonlinear_arith);
        k += 1;
    }
    texels
}

/// Calls and texels that set every texel of the region of `size` at `off` to
/// `pixel`, the bytes of one encoded texel.
pub fn clear_part(
    texture: &GLTexture,
    l: Layering,
    gen_mipmaps: bool,
    off: Offset,
    size: Size,
    pf: PixelFormat,
    pixel: &[u8],
) -> (r: Result<(Vec<Call>, Vec<u8>), TextureError>)
    requires
        off.dimension() == size.dimension(),
        size.capacity() <= u32::MAX,
    ensures
        creatable(l, pf) ==> r is Ok && r->Ok_0.0@ == transfer(
            *texture,
            gen_mipmaps,
            off,
            size,
            resolve(pf).unwrap(),
        ) && r->Ok_0.1@.len() == size.capacity() * pixel@.len() && (forall|i: int|
            0 <= i < r->Ok_0.1@.len() ==> #[trigger] r->Ok_0.1@[i] == pixel@[i % (
            pixel@.len() as int)]),
        !creatable(l, pf) ==> r == Err::<(Vec<Call>, Vec<u8>), TextureError>(
            TextureError::UnsupportedFormat,
        ),
{
    let calls = match upload_part(texture, l, gen_mipmaps, off, size, pf) {
        Ok(calls) => calls,
        Err(e) => {
            return Err(e);
        },
    };
    let texels = broadcast(pixel, dim_capacity(size) as usize);
    Ok((calls, texels))
}

/// The call that binds a texture to its target.
pub fn bind(texture: &GLTexture) -> (calls: Vec<Call>)
    ensures
        calls@ == seq![Call::BindTexture { target: texture.target, texture: texture.handle }],
{
    vec![Call::BindTexture { target: texture.target, texture: texture.handle }]
}

/// Number of raw elements in a whole image of `w` by `h` texels.
pub open spec fn raw_len(w: i32, h: i32, pf: PixelFormat) -> int {
    w * h * channels(pf.format)
}

/// Whether the driver's report of a level-0 extent describes an image that
/// can be read back.
pub open spec fn readable(w: i32, h: i32, pf: PixelFormat) -> bool {
    0 <= w && 0 <= h && raw_len(w, h, pf) <= usize::MAX
}

/// Calls that read the whole of mip level 0 of the bound texture, whose width
/// `w` and height `h` were just read from the driver, and unbind it. The
/// image holds one raw element per channel and texel.
pub fn get_raw_texels(texture: &GLTexture, pf: PixelFormat, w: i32, h: i32) -> (r: Result<
    Vec<Call>,
    TextureError,
>)
    ensures
        resolve(pf).is_none() ==> r == Err::<Vec<Call>, TextureError>(
            TextureError::UnsupportedFormat,
        ),
        resolve(pf).is_some() && !readable(w, h, pf) ==> r == Err::<Vec<Call>, TextureError>(
            TextureError::InvalidExtent,
        ),
        resolve(pf).is_some() && readable(w, h, pf) ==> r is Ok && r->Ok_0@ == seq![
            Call::GetTexImage {
                target: texture.target,
                level: 0,
                format: resolve(pf).unwrap().0,
                ty: resolve(pf).unwrap().2,
                len: raw_len(w, h, pf) as usize,
            },
            Call::BindTexture { target: texture.target, texture: 0 },
        ],
{
    let (format, ty) = match gl_pixel_format(pf) {
        Some((format, _, ty)) => (format, ty),
        None => {
            return Err(TextureError::UnsupportedFormat);
        },
    };
    if w < 0 || h < 0 {
        return Err(TextureError::InvalidExtent);
    }
    let width = w as u64;
    let height = h as u64;
    let components = pixel_components(pf) as u64;
    assert(width * height <= 0x3FFF_FFFF_0000_0001) by (nonlinear_arith)
        requires
            width <= 0x7FFF_FFFF,
            height <= 0x7FFF_FFFF,
    ;
    let area = width * height;
    assert(area * components <= 0xFFFF_FFFC_0000_0004) by (nonlinear_arith)
        requires
            area <= 0x3FFF_FFFF_0000_0001,
            components <= 4,
    ;
    let len = area * components;
    assert(len == raw_len(w, h, pf));
    if len > usize::MAX as u64 {
        return Err(TextureError::InvalidExtent);
    }
    Ok(
        vec![
            Call::GetTexImage { target: texture.target, level: 0, format, ty, len: len as usize },
            Call::BindTexture { target: texture.target, texture: 0 },
        ],
    )
}

} // verus!
