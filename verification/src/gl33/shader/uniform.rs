//! Uniform updates by driver location.
//!
//! Every function gives the call that updates the uniform at `u` of the
//! current program. A scalar travels in its call. The components of vectors,
//! matrices and arrays are caller data that the executor hands to the driver:
//! their call says how many items of which shape there are. Booleans are sent
//! as signed integers, 1 for true and 0 for false, and the functions that take
//! them return those integers beside the call.

use vstd::prelude::*;
use crate::call::Call;
use crate::gl33::texture::GLTexture;
use crate::glenum;

verus! {

/// The integer that stands for a boolean: 1 for true, 0 for false.
pub open spec fn bool_word(b: bool) -> int {
    if b {
        1
    } else {
        0
    }
}

/// Calls that bind the first `n` textures, each to the unit of its position,
/// and point the sampler at `u` to that unit.
pub open spec fn texture_updates(u: i32, textures: Seq<GLTexture>, n: int) -> Seq<Call>
    decreases n,
{
    if n <= 0 {
        Seq::empty()
    } else {
        texture_updates(u, textures, n - 1) + seq![
            Call::ActiveTexture { unit: (glenum::TEXTURE0 + (n - 1)) as u32 },
            Call::BindTexture { target: textures[n - 1].target, texture: textures[n - 1].handle },
            Call::Uniform1i { location: u, value: (n - 1) as i32 },
        ]
    }
}

pub fn update1_i32(u: i32, x: i32) -> (call: Call)
    ensures
        call == (Call::Uniform1i { location: u, value: x }),
{
    Call::Uniform1i { location: u, value: x }
}

pub fn update1_u32(u: i32, x: u32) -> (call: Call)
    ensures
        call == (Call::Uniform1ui { location: u, word: x }),
{
    Call::Uniform1ui { location: u, word: x }
}

/// `x` is the bit pattern of the value.
pub fn update1_f32(u: i32, x: u32) -> (call: Call)
    ensures
        call == (Call::Uniform1f { location: u, bits: x }),
{
    Call::Uniform1f { location: u, bits: x }
}

pub fn update1_bool(u: i32, x: bool) -> (call: Call)
    ensures
        call == (Call::Uniform1i { location: u, value: bool_word(x) as i32 }),
{
    Call::Uniform1i { location: u, value: if x {
        1
    } else {
        0
    } }
}

/// One signed integer vector of `dim` components.
pub fn update_i32(u: i32, dim: u32) -> (call: Call)
    requires
        2 <= dim <= 4,
    ensures
        call == (Call::UniformIv { location: u, dim, count: 1 }),
{
    Call::UniformIv { location: u, dim, count: 1 }
}

/// An array of `count` signed integer vectors of `dim` components.
pub fn update_slice_i32(u: i32, dim: u32, count: usize) -> (call: Call)
    requires
        1 <= dim <= 4,
    ensures
        call == (Call::UniformIv { location: u, dim, count }),
{
    Call::UniformIv { location: u, dim, count }
}

/// One unsigned integer vector of `dim` components.
pub fn update_u32(u: i32, dim: u32) -> (call: Call)
    requires
        2 <= dim <= 4,
    ensures
        call == (Call::UniformUiv { location: u, dim, count: 1 }),
{
    Call::UniformUiv { location: u, dim, count: 1 }
}

/// An array of `count` unsigned integer vectors of `dim` components.
pub fn update_slice_u32(u: i32, dim: u32, count: usize) -> (call: Call)
    requires
        1 <= dim <= 4,
    ensures
        call == (Call::UniformUiv { location: u, dim, count }),
{
    Call::UniformUiv { location: u, dim, count }
}

/// One floating-point vector of `dim` components.
pub fn update_f32(u: i32, dim: u32) -> (call: Call)
    requires
        2 <= dim <= 4,
    ensures
        call == (Call::UniformFv { location: u, dim, count: 1 }),
{
    Call::UniformFv { location: u, dim, count: 1 }
}

/// An array of `count` floating-point vectors of `dim` components.
pub fn update_slice_f32(u: i32, dim: u32, count: usize) -> (call: Call)
    requires
        1 <= dim <= 4,
    ensures
        call == (Call::UniformFv { location: u, dim, count }),
{
    Call::UniformFv { location: u, dim, count }
}

/// One square matrix of `dim` rows, sent as an array of one.
pub fn update_matrix_f32(u: i32, dim: u32) -> (call: Call)
    requires
        2 <= dim <= 4,
    ensures
        call == (Call::UniformMatrixFv { location: u, dim, count: 1, transpose: false }),
{
    update_matrix_slice_f32(u, dim, 1)
}

/// An array of `count` square matrices of `dim` rows.
pub fn update_matrix_slice_f32(u: i32, dim: u32, count: usize) -> (call: Call)
    requires
        2 <= dim <= 4,
    ensures
        call == (Call::UniformMatrixFv { location: u, dim, count, transpose: false }),
{
    Call::UniformMatrixFv { location: u, dim, count, transpose: false }
}

/// The integers that stand for the booleans of `v`, in order.
pub fn bools_as_i32(v: &[bool]) -> (words: Vec<i32>)
    ensures
        words@.len() == v@.len(),
        forall|k: int| 0 <= k < words@.len() ==> #[trigger] words@[k] == bool_word(v@[k]),
{
    let mut words: Vec<i32> = Vec::with_capacity(v.len());
    let mut k: usize = 0;
    while k < v.len()
        invariant
            k <= v@.len(),
            words@.len() == k,
            forall|j: int| 0 <= j < k ==> #[trigger] words@[j] == bool_word(v@[j]),
        decreases v@.len() - k,
    {
        words.push(if v[k] {
            1
        } else {
            0
        });
        k += 1;
    }
    words
}

/// One boolean vector, sent as a signed integer vector: the call and the
/// integers.
pub fn update_bool(u: i32, v: &[bool]) -> (r: (Call, Vec<i32>))
    requires
        2 <= v@.len() <= 4,
    ensures
        r.0 == (Call::UniformIv { location: u, dim: v@.len() as u32, count: 1 }),
        r.1@.len() == v@.len(),
        forall|k: int| 0 <= k < r.1@.len() ==> #[trigger] r.1@[k] == bool_word(v@[k]),
{
    (Call::UniformIv { location: u, dim: v.len() as u32, count: 1 }, bools_as_i32(v))
}

/// An array of boolean vectors of `dim` components each, given component
/// after component, sent as signed integer vectors: the call and the
/// integers.
pub fn update_slice_bool(u: i32, dim: u32, v: &[bool]) -> (r: (Call, Vec<i32>))
    requires
        1 <= dim <= 4,
        (v@.len() as int) % (dim as int) == 0,
    ensures
        r.0 == (Call::UniformIv { location: u, dim, count: ((v@.len() as int) / (dim as int)) as usize }),
        r.1@.len() == v@.len(),
        forall|k: int| 0 <= k < r.1@.len() ==> #[trigger] r.1@[k] == bool_word(v@[k]),
{
    (Call::UniformIv { location: u, dim, count: v.len() / dim as usize }, bools_as_i32(v))
}

/// Calls that bind every texture to the unit of its position and point the
/// sampler at `u` to it, one texture after the other.
pub fn update_textures(u: i32, textures: &[GLTexture]) -> (calls: Vec<Call>)
    requires
        textures@.len() <= i32::MAX,
    ensures
        calls@ == texture_updates(u, textures@, textures@.len() as int),
{
    let mut calls: Vec<Call> = Vec::new();
    let mut tex_unit: usize = 0;
    while tex_unit < textures.len()
        invariant
            textures@.len() <= i32::MAX,
            tex_unit <= textures@.len(),
            calls@ == texture_updates(u, textures@, tex_unit as int),
        decreases textures@.len() - tex_unit,
    {
        let texture = &textures[tex_unit];
        calls.push(Call::ActiveTexture { unit: glenum::TEXTURE0 + tex_unit as u32 });
        calls.push(Call::BindTexture { target: texture.target, texture: texture.handle });
        calls.push(Call::Uniform1i { location: u, value: tex_unit as i32 });
        tex_unit += 1;
        assert(calls@ =~= texture_updates(u, textures@, tex_unit as int));
    }
    calls
}

} // verus!
