//! Shader programs: linking, uniform resolution by semantic, and updates.

use std::collections::HashMap;
use vstd::prelude::*;
use vstd::string::StringExecFns;
use crate::call::Call;
use crate::gl33::shader::uniform;
use crate::gl33::shader::uniform::bool_word;
use crate::glenum;

verus! {

/// A caller-defined number that identifies a uniform of a program.
pub type SemIndex = u32;

/// Scalar type of a uniform.
#[derive(Clone, Copy, Debug, PartialEq, Eq, Structural)]
pub enum Type {
    Integral,
    Unsigned,
    Floating,
    Boolean,
    TextureUnit,
    BufferBinding,
}

/// Shape of a uniform.
#[derive(Clone, Copy, Debug, PartialEq, Eq, Structural)]
pub enum Dim {
    Dim1,
    Dim2,
    Dim3,
    Dim4,
    Dim22,
    Dim33,
    Dim44,
    Cubemap,
}

/// A uniform as the caller declares it: its semantic index, its name in the
/// shader source, its type and its shape.
#[derive(Clone, Debug, PartialEq, Eq)]
pub struct Sem {
    pub index: SemIndex,
    pub name: String,
    pub ty: Type,
    pub dim: Dim,
}

/// An advisory finding about a declared uniform; the program is built all the
/// same.
#[derive(Clone, Debug, PartialEq, Eq)]
pub enum UniformWarning {
    /// The program does not use the uniform of this name.
    Inactive(String),
    /// The uniform of this name has another type in the program; the second
    /// text says which type was asked for.
    TypeMismatch(String, String),
}

#[derive(Clone, Debug, PartialEq, Eq)]
pub enum ProgramError {
    /// The stages did not link; the text is the driver's log.
    LinkFailed(String),
    UniformWarning(UniformWarning),
}

/// Where the driver keeps a uniform.
#[derive(Clone, Copy, Debug, PartialEq, Eq, Structural)]
pub enum Location {
    /// Location of an ordinary uniform, -1 where the program has none.
    Uniform(i32),
    /// Index of a uniform block, `INVALID_INDEX` where the program has none.
    UniformBlock(u32),
}

/// What the driver reports of the uniform that a semantic names: its
/// location, the index of the block of that name, and the array size and type
/// of the active uniform. Of location and block index only the one that the
/// semantic's type calls for is read.
#[derive(Clone, Copy, Debug, PartialEq, Eq, Structural)]
pub struct Reflected {
    pub location: i32,
    pub block: u32,
    pub size: i32,
    pub typ: u32,
}

/// A linked program, with the location of every declared uniform and the
/// block index of every declared uniform block, by semantic index.
#[derive(Clone, Debug, PartialEq, Eq)]
pub struct GLProgram {
    pub id: u32,
    pub uni_sem_map: HashMap<SemIndex, i32>,
    pub ubo_sem_map: HashMap<SemIndex, u32>,
}

/// A [`UniformWarning`] with its texts as sequences of characters.
pub enum Warning {
    Inactive(Seq<char>),
    TypeMismatch(Seq<char>, Seq<char>),
}

impl View for UniformWarning {
    type V = Warning;

    open spec fn view(&self) -> Warning {
        match self {
            UniformWarning::Inactive(name) => Warning::Inactive(name@),
            UniformWarning::TypeMismatch(name, reason) => Warning::TypeMismatch(name@, reason@),
        }
    }
}

/// Type code that the driver reflects for a uniform of this type and shape,
/// with its name in the shading language; `None` for the combinations that
/// are not checked.
pub open spec fn expected(ty: Type, dim: Dim) -> Option<(u32, Seq<char>)> {
    match (ty, dim) {
        (Type::Integral, Dim::Dim1) => Some((glenum::INT, "int"@)),
        (Type::Integral, Dim::Dim2) => Some((glenum::INT_VEC2, "ivec2"@)),
        (Type::Integral, Dim::Dim3) => Some((glenum::INT_VEC3, "ivec3"@)),
        (Type::Integral, Dim::Dim4) => Some((glenum::INT_VEC4, "ivec4"@)),
        (Type::Unsigned, Dim::Dim1) => Some((glenum::UNSIGNED_INT, "uint"@)),
        (Type::Unsigned, Dim::Dim2) => Some((glenum::UNSIGNED_INT_VEC2, "uvec2"@)),
        (Type::Unsigned, Dim::Dim3) => Some((glenum::UNSIGNED_INT_VEC3, "uvec3"@)),
        (Type::Unsigned, Dim::Dim4) => Some((glenum::UNSIGNED_INT_VEC4, "uvec4"@)),
        (Type::Floating, Dim::Dim1) => Some((glenum::FLOAT, "float"@)),
        (Type::Floating, Dim::Dim2) => Some((glenum::FLOAT_VEC2, "vec2"@)),
        (Type::Floating, Dim::Dim3) => Some((glenum::FLOAT_VEC3, "vec3"@)),
        (Type::Floating, Dim::Dim4) => Some((glenum::FLOAT_VEC4, "vec4"@)),
        (Type::Floating, Dim::Dim22) => Some((glenum::FLOAT_MAT2, "mat2"@)),
        (Type::Floating, Dim::Dim33) => Some((glenum::FLOAT_MAT3, "mat3"@)),
        (Type::Floating, Dim::Dim44) => Some((glenum::FLOAT_MAT4, "mat4"@)),
        (Type::Boolean, Dim::Dim1) => Some((glenum::BOOL, "bool"@)),
        (Type::Boolean, Dim::Dim2) => Some((glenum::BOOL_VEC2, "bvec2"@)),
        (Type::Boolean, Dim::Dim3) => Some((glenum::BOOL_VEC3, "bvec3"@)),
        (Type::Boolean, Dim::Dim4) => Some((glenum::BOOL_VEC4, "bvec4"@)),
        _ => None,
    }
}

/// The complaint about a uniform whose reflected type differs from the
/// declared one. Arrays, which report a size other than 1, are not checked.
pub open spec fn mismatch(size: i32, typ: u32, ty: Type, dim: Dim) -> Option<Seq<char>> {
    if size != 1 {
        None
    } else {
        match expected(ty, dim) {
            Some((code, name)) => if typ != code {
                Some("requested "@ + name + " doesn't match"@)
            } else {
                None
            },
            None => None,
        }
    }
}

/// Whether the program uses the uniform: a uniform block by its index, any
/// other uniform by its location.
pub open spec fn active(ty: Type, r: Reflected) -> bool {
    if ty == Type::BufferBinding {
        r.block != glenum::INVALID_INDEX
    } else {
        r.location != -1
    }
}

/// Where the driver keeps the uniform.
pub open spec fn location_of(ty: Type, r: Reflected) -> Location {
    if ty == Type::BufferBinding {
        Location::UniformBlock(r.block)
    } else {
        Location::Uniform(r.location)
    }
}

/// The warning that a declared uniform gives rise to: an unused uniform is
/// inactive and not checked further; a used one may mismatch.
pub open spec fn warning_of(name: Seq<char>, ty: Type, dim: Dim, r: Reflected) -> Option<Warning> {
    if !active(ty, r) {
        Some(Warning::Inactive(name))
    } else {
        match mismatch(r.size, r.typ, ty, dim) {
            Some(reason) => Some(Warning::TypeMismatch(name, reason)),
            None => None,
        }
    }
}

/// Locations of the ordinary uniforms among the first `n` semantics, by
/// semantic index; a later semantic replaces an earlier one of its index.
pub open spec fn uniform_map(sems: Seq<Sem>, reflected: Seq<Reflected>, n: int) -> Map<SemIndex, i32>
    decreases n,
{
    if n <= 0 {
        Map::empty()
    } else if sems[n - 1].ty == Type::BufferBinding {
        uniform_map(sems, reflected, n - 1)
    } else {
        uniform_map(sems, reflected, n - 1).insert(sems[n - 1].index, reflected[n - 1].location)
    }
}

/// Block indices of the uniform blocks among the first `n` semantics, by
/// semantic index.
pub open spec fn block_map(sems: Seq<Sem>, reflected: Seq<Reflected>, n: int) -> Map<SemIndex, u32>
    decreases n,
{
    if n <= 0 {
        Map::empty()
    } else if sems[n - 1].ty == Type::BufferBinding {
        block_map(sems, reflected, n - 1).insert(sems[n - 1].index, reflected[n - 1].block)
    } else {
        block_map(sems, reflected, n - 1)
    }
}

/// Warnings about the first `n` semantics, in their order.
pub open spec fn warnings_of(sems: Seq<Sem>, reflected: Seq<Reflected>, n: int) -> Seq<Warning>
    decreases n,
{
    if n <= 0 {
        Seq::empty()
    } else {
        match warning_of(sems[n - 1].name@, sems[n - 1].ty, sems[n - 1].dim, reflected[n - 1]) {
            Some(w) => warnings_of(sems, reflected, n - 1).push(w),
            None => warnings_of(sems, reflected, n - 1),
        }
    }
}

/// Calls that attach the stages of a program and link it: the tessellation
/// pair where there is one, the vertex stage, the geometry stage where there
/// is one, the fragment stage.
pub open spec fn linking(
    program: u32,
    tess: Option<(u32, u32)>,
    vertex: u32,
    geometry: Option<u32>,
    fragment: u32,
) -> Seq<Call> {
    (match tess {
        Some(pair) => seq![
            Call::AttachShader { program, shader: pair.0 },
            Call::AttachShader { program, shader: pair.1 },
        ],
        None => Seq::empty(),
    }) + seq![Call::AttachShader { program, shader: vertex }] + (match geometry {
        Some(shader) => seq![Call::AttachShader { program, shader }],
        None => Seq::empty(),
    }) + seq![
        Call::AttachShader { program, shader: fragment },
        Call::LinkProgram { program },
    ]
}

/// Calls that attach the stages to the fresh program `program` and link it.
/// The link status is to be read once they have run.
pub fn link_program(
    program: u32,
    tess: Option<(u32, u32)>,
    vertex: u32,
    geometry: Option<u32>,
    fragment: u32,
) -> (calls: Vec<Call>)
    ensures
        calls@ == linking(program, tess, vertex, geometry, fragment),
{
    let mut calls: Vec<Call> = Vec::new();
    if let Some((tcs, tes)) = tess {
        calls.push(Call::AttachShader { program, shader: tcs });
        calls.push(Call::AttachShader { program, shader: tes });
    }
    calls.push(Call::AttachShader { program, shader: vertex });
    if let Some(shader) = geometry {
        calls.push(Call::AttachShader { program, shader });
    }
    calls.push(Call::AttachShader { program, shader: fragment });
    calls.push(Call::LinkProgram { program });
    assert(calls@ =~= linking(program, tess, vertex, geometry, fragment));
    calls
}

/// Type code and shading-language name that a uniform of this type and shape
/// is checked against.
fn expected_type(ty: Type, dim: Dim) -> (r: Option<(u32, &'static str)>)
    ensures
        r.is_some() == expected(ty, dim).is_some(),
        r.is_some() ==> r.unwrap().0 == expected(ty, dim).unwrap().0 && r.unwrap().1@ == expected(
            ty,
            dim,
        ).unwrap().1,
{
    match (ty, dim) {
        (Type::Integral, Dim::Dim1) => Some((glenum::INT, "int")),
        (Type::Integral, Dim::Dim2) => Some((glenum::INT_VEC2, "ivec2")),
        (Type::Integral, Dim::Dim3) => Some((glenum::INT_VEC3, "ivec3")),
        (Type::Integral, Dim::Dim4) => Some((glenum::INT_VEC4, "ivec4")),
        (Type::Unsigned, Dim::Dim1) => Some((glenum::UNSIGNED_INT, "uint")),
        (Type::Unsigned, Dim::Dim2) => Some((glenum::UNSIGNED_INT_VEC2, "uvec2")),
        (Type::Unsigned, Dim::Dim3) => Some((glenum::UNSIGNED_INT_VEC3, "uvec3")),
        (Type::Unsigned, Dim::Dim4) => Some((glenum::UNSIGNED_INT_VEC4, "uvec4")),
        (Type::Floating, Dim::Dim1) => Some((glenum::FLOAT, "float")),
        (Type::Floating, Dim::Dim2) => Some((glenum::FLOAT_VEC2, "vec2")),
        (Type::Floating, Dim::Dim3) => Some((glenum::FLOAT_VEC3, "vec3")),
        (Type::Floating, Dim::Dim4) => Some((glenum::FLOAT_VEC4, "vec4")),
        (Type::Floating, Dim::Dim22) => Some((glenum::FLOAT_MAT2, "mat2")),
        (Type::Floating, Dim::Dim33) => Some((glenum::FLOAT_MAT3, "mat3")),
        (Type::Floating, Dim::Dim44) => Some((glenum::FLOAT_MAT4, "mat4")),
        (Type::Boolean, Dim::Dim1) => Some((glenum::BOOL, "bool")),
        (Type::Boolean, Dim::Dim2) => Some((glenum::BOOL_VEC2, "bvec2")),
        (Type::Boolean, Dim::Dim3) => Some((glenum::BOOL_VEC3, "bvec3")),
        (Type::Boolean, Dim::Dim4) => Some((glenum::BOOL_VEC4, "bvec4")),
        _ => None,
    }
}

/// Whether a status that the driver reports for a link says that the program
/// is linked.
pub fn linked(link_status: i32) -> (yes: bool)
    ensures
        yes == (link_status == glenum::TRUE),
{
    link_status == glenum::TRUE as i32
}

/// Whether a uniform of this type is a uniform block, which the driver finds
/// by its block index; every other uniform is found by its location.
pub fn located_by_block(ty: Type) -> (yes: bool)
    ensures
        yes == (ty == Type::BufferBinding),
{
    ty == Type::BufferBinding
}

/// Whether the program uses the uniform, going by the driver's report of
/// where it is; of a uniform that is not used, size and type are not read.
pub fn is_active(ty: Type, reflected: &Reflected) -> (yes: bool)
    ensures
        yes == active(ty, *reflected),
{
    if located_by_block(ty) {
        reflected.block != glenum::INVALID_INDEX
    } else {
        reflected.location != -1
    }
}

/// Checks the array size and type that the driver reflects for a uniform
/// against its declared type and shape; returns the complaint where they do
/// not match.
pub fn uniform_type_match(size: i32, typ: u32, ty: Type, dim: Dim) -> (r: Option<String>)
    ensures
        r.is_some() == mismatch(size, typ, ty, dim).is_some(),
        r.is_some() ==> r.unwrap()@ == mismatch(size, typ, ty, dim).unwrap(),
{
    if size != 1 {
        return None;
    }
    match expected_type(ty, dim) {
        Some((code, name)) => if typ != code {
            Some(String::from_str("requested ").concat(name).concat(" doesn't match"))
        } else {
            None
        },
        None => None,
    }
}

/// Resolves a declared uniform against what the driver reports of it.
///
/// Returns where the uniform is kept, and a warning where the program does
/// not use it or holds it with another type.
pub fn get_uniform_location(name: &str, ty: Type, dim: Dim, reflected: &Reflected) -> (r: (
    Location,
    Option<UniformWarning>,
))
    ensures
        r.0 == location_of(ty, *reflected),
        r.1.is_some() == warning_of(name@, ty, dim, *reflected).is_some(),
        r.1.is_some() ==> r.1.unwrap()@ == warning_of(name@, ty, dim, *reflected).unwrap(),
{
    let location = if located_by_block(ty) {
        if !is_active(ty, reflected) {
            return (
                Location::UniformBlock(reflected.block),
                Some(UniformWarning::Inactive(name.to_owned())),
            );
        }
        Location::UniformBlock(reflected.block)
    } else {
        if !is_active(ty, reflected) {
            return (
                Location::Uniform(reflected.location),
                Some(UniformWarning::Inactive(name.to_owned())),
            );
        }
        Location::Uniform(reflected.location)
    };
    if let Some(reason) = uniform_type_match(reflected.size, reflected.typ, ty, dim) {
        return (location, Some(UniformWarning::TypeMismatch(name.to_owned(), reason)));
    }
    (location, None)
}

/// The warnings of a list, each with its texts as sequences of characters.
pub open spec fn warning_views(warnings: Seq<UniformWarning>) -> Seq<Warning> {
    warnings.map_values(|w: UniformWarning| w@)
}

/// Concludes the linking planned by [`link_program`], given the link status
/// that the driver reports.
///
/// A linked program is returned with the place of every declared uniform,
/// taken from `reflected`, which holds the driver's report for each semantic
/// of `sems` in turn; findings about them are warnings and never stand in the
/// way. Any other status is a failure that carries `log`, the driver's log,
/// and the call deletes the program.
pub fn new_program(
    program: u32,
    link_status: i32,
    sems: &[Sem],
    reflected: &[Reflected],
    log: String,
) -> (r: (Vec<Call>, Result<(GLProgram, Vec<UniformWarning>), ProgramError>))
    requires
        link_status == glenum::TRUE ==> reflected@.len() == sems@.len(),
    ensures
        link_status == glenum::TRUE ==> r.0@ == Seq::<Call>::empty() && r.1 is Ok
            && r.1->Ok_0.0.id == program && r.1->Ok_0.0.uni_sem_map@ == uniform_map(
            sems@,
            reflected@,
            sems@.len() as int,
        ) && r.1->Ok_0.0.ubo_sem_map@ == block_map(sems@, reflected@, sems@.len() as int)
            && warning_views(r.1->Ok_0.1@) == warnings_of(sems@, reflected@, sems@.len() as int),
        link_status != glenum::TRUE ==> r.0@ == seq![Call::DeleteProgram { program }] && r.1
            is Err && r.1->Err_0 is LinkFailed && r.1->Err_0->LinkFailed_0@ == log@,
{
    broadcast use vstd::std_specs::hash::group_hash_axioms;

    if !linked(link_status) {
        return (vec![Call::DeleteProgram { program }], Err(ProgramError::LinkFailed(log)));
    }
    let mut uni_sem_map: HashMap<SemIndex, i32> = HashMap::new();
    let mut ubo_sem_map: HashMap<SemIndex, u32> = HashMap::new();
    let mut warnings: Vec<UniformWarning> = Vec::new();
    let mut i: usize = 0;
    assert(uni_sem_map@ =~= uniform_map(sems@, reflected@, 0));
    assert(ubo_sem_map@ =~= block_map(sems@, reflected@, 0));
    assert(warning_views(warnings@) =~= warnings_of(sems@, reflected@, 0));
    while i < sems.len()
        invariant
            i <= sems@.len(),
            reflected@.len() == sems@.len(),
            uni_sem_map@ == uniform_map(sems@, reflected@, i as int),
            ubo_sem_map@ == block_map(sems@, reflected@, i as int),
            warning_views(warnings@) == warnings_of(sems@, reflected@, i as int),
        decreases sems@.len() - i,
    {
        let sem = &sems[i];
        let (location, warning) = get_uniform_location(
            sem.name.as_str(),
            sem.ty,
            sem.dim,
            &reflected[i],
        );
        match location {
            Location::Uniform(location) => {
                uni_sem_map.insert(sem.index, location);
            },
            Location::UniformBlock(index) => {
                ubo_sem_map.insert(sem.index, index);
            },
        }
        let ghost before = warnings@;
        if let Some(warning) = warning {
            warnings.push(warning);
            assert(warning_views(warnings@) =~= warning_views(before).push(warning@));
        }
        i += 1;
    }
    (Vec::new(), Ok((GLProgram { id: program, uni_sem_map, ubo_sem_map }, warnings)))
}

/// The call that releases the program's handle.
pub fn free_program(program: &GLProgram) -> (calls: Vec<Call>)
    ensures
        calls@ == seq![Call::DeleteProgram { program: program.id }],
{
    vec![Call::DeleteProgram { program: program.id }]
}

/// Calls around an update of the program's uniforms: the program is made
/// current before the update and none is current after it.
pub fn update_uniforms(program: &GLProgram) -> (r: (Vec<Call>, Vec<Call>))
    ensures
        r.0@ == seq![Call::UseProgram { program: program.id }],
        r.1@ == seq![Call::UseProgram { program: 0 }],
{
    (vec![Call::UseProgram { program: program.id }], vec![Call::UseProgram { program: 0 }])
}

impl GLProgram {
    /// Whether `u` is a semantic of an ordinary uniform of the program: it is
    /// below the number of such semantics and has a location.
    pub open spec fn declares_uniform(&self, u: SemIndex) -> bool {
        (u as int) < self.uni_sem_map@.len() && self.uni_sem_map@.contains_key(u)
    }

    /// Whether `u` is a semantic of a uniform block of the program.
    pub open spec fn declares_block(&self, u: SemIndex) -> bool {
        (u as int) < self.ubo_sem_map@.len() && self.ubo_sem_map@.contains_key(u)
    }

    /// Location of the ordinary uniform with semantic `u`, or `None` where
    /// the program declares no such uniform.
    pub fn uniform_location(&self, u: SemIndex) -> (location: Option<i32>)
        ensures
            location == (if self.declares_uniform(u) {
                Some(self.uni_sem_map@[u])
            } else {
                None
            }),
    {
        broadcast use vstd::std_specs::hash::group_hash_axioms;

        if u as usize >= self.uni_sem_map.len() {
            return None;
        }
        match self.uni_sem_map.get(&u) {
            Some(location) => Some(*location),
            None => None,
        }
    }

    /// Index of the uniform block with semantic `u`, or `None` where the
    /// program declares no such block.
    pub fn block_index(&self, u: SemIndex) -> (index: Option<u32>)
        ensures
            index == (if self.declares_block(u) {
                Some(self.ubo_sem_map@[u])
            } else {
                None
            }),
    {
        broadcast use vstd::std_specs::hash::group_hash_axioms;

        if u as usize >= self.ubo_sem_map.len() {
            return None;
        }
        match self.ubo_sem_map.get(&u) {
            Some(index) => Some(*index),
            None => None,
        }
    }
}

/// Location of a declared uniform.
fn location(program: &GLProgram, u: SemIndex) -> (location: i32)
    requires
        program.declares_uniform(u),
    ensures
        location == program.uni_sem_map@[u],
{
    match program.uniform_location(u) {
        Some(location) => location,
        None => -1,
    }
}

pub fn update1_i32(program: &GLProgram, u: SemIndex, x: i32) -> (call: Call)
    requires
        program.declares_uniform(u),
    ensures
        call == (Call::Uniform1i { location: program.uni_sem_map@[u], value: x }),
{
    uniform::update1_i32(location(program, u), x)
}

pub fn update1_u32(program: &GLProgram, u: SemIndex, x: u32) -> (call: Call)
    requires
        program.declares_uniform(u),
    ensures
        call == (Call::Uniform1ui { location: program.uni_sem_map@[u], word: x }),
{
    uniform::update1_u32(location(program, u), x)
}

/// `x` is the bit pattern of the value.
pub fn update1_f32(program: &GLProgram, u: SemIndex, x: u32) -> (call: Call)
    requires
        program.declares_uniform(u),
    ensures
        call == (Call::Uniform1f { location: program.uni_sem_map@[u], bits: x }),
{
    uniform::update1_f32(location(program, u), x)
}

/// A boolean is sent as an unsigned integer, 1 for true and 0 for false.
pub fn update1_bool(program: &GLProgram, u: SemIndex, x: bool) -> (call: Call)
    requires
        program.declares_uniform(u),
    ensures
        call == (Call::Uniform1ui {
            location: program.uni_sem_map@[u],
            word: bool_word(x) as u32,
        }),
{
    Call::Uniform1ui { location: location(program, u), word: if x {
        1
    } else {
        0
    } }
}

/// One signed integer vector of `dim` components.
pub fn update_i32(program: &GLProgram, u: SemIndex, dim: u32) -> (call: Call)
    requires
        program.declares_uniform(u),
        2 <= dim <= 4,
    ensures
        call == (Call::UniformIv { location: program.uni_sem_map@[u], dim, count: 1 }),
{
    uniform::update_i32(location(program, u), dim)
}

/// An array of `count` signed integer vectors of `dim` components.
pub fn update_slice_i32(program: &GLProgram, u: SemIndex, dim: u32, count: usize) -> (call: Call)
    requires
        program.declares_uniform(u),
        1 <= dim <= 4,
    ensures
        call == (Call::UniformIv { location: program.uni_sem_map@[u], dim, count }),
{
    uniform::update_slice_i32(location(program, u), dim, count)
}

/// One unsigned integer vector of `dim` components.
pub fn update_u32(program: &GLProgram, u: SemIndex, dim: u32) -> (call: Call)
    requires
        program.declares_uniform(u),
        2 <= dim <= 4,
    ensures
        call == (Call::UniformUiv { location: program.uni_sem_map@[u], dim, count: 1 }),
{
    uniform::update_u32(location(program, u), dim)
}

/// An array of `count` unsigned integer vectors of `dim` components.
pub fn update_slice_u32(program: &GLProgram, u: SemIndex, dim: u32, count: usize) -> (call: Call)
    requires
        program.declares_uniform(u),
        1 <= dim <= 4,
    ensures
        call == (Call::UniformUiv { location: program.uni_sem_map@[u], dim, count }),
{
    uniform::update_slice_u32(location(program, u), dim, count)
}

/// One floating-point vector of `dim` components.
pub fn update_f32(program: &GLProgram, u: SemIndex, dim: u32) -> (call: Call)
    requires
        program.declares_uniform(u),
        2 <= dim <= 4,
    ensures
        call == (Call::UniformFv { location: program.uni_sem_map@[u], dim, count: 1 }),
{
    uniform::update_f32(location(program, u), dim)
}

/// An array of `count` floating-point vectors of `dim` components.
pub fn update_slice_f32(program: &GLProgram, u: SemIndex, dim: u32, count: usize) -> (call: Call)
    requires
        program.declares_uniform(u),
        1 <= dim <= 4,
    ensures
        call == (Call::UniformFv { location: program.uni_sem_map@[u], dim, count }),
{
    uniform::update_slice_f32(location(program, u), dim, count)
}

/// One square matrix of `dim` rows, sent as an array of one.
pub fn update_matrix_f32(program: &GLProgram, u: SemIndex, dim: u32) -> (call: Call)
    requires
        program.declares_uniform(u),
        2 <= dim <= 4,
    ensures
        call == (Call::UniformMatrixFv { location: program.uni_sem_map@[u], dim, count: 1, transpose: false }),
{
    update_matrix_slice_f32(program, u, dim, 1)
}

/// An array of `count` square matrices of `dim` rows.
pub fn update_matrix_slice_f32(program: &GLProgram, u: SemIndex, dim: u32, count: usize) -> (call:
    Call)
    requires
        program.declares_uniform(u),
        2 <= dim <= 4,
    ensures
        call == (Call::UniformMatrixFv { location: program.uni_sem_map@[u], dim, count, transpose: false }),
{
    uniform::update_matrix_slice_f32(location(program, u), dim, count)
}

/// The unsigned integers that stand for the booleans of `v`, in order.
pub fn bools_as_u32(v: &[bool]) -> (words: Vec<u32>)
    ensures
        words@.len() == v@.len(),
        forall|k: int| 0 <= k < words@.len() ==> #[trigger] words@[k] == bool_word(v@[k]),
{
    let mut words: Vec<u32> = Vec::with_capacity(v.len());
    let mut k: usize = 0;
    while k < v.len()
        invariant
            k <= v@.len(),
            words@.len() == k,
            forall|j: int| 0 <= j < k ==> #[trigger] words@[j] == bool_word(v@[j]),
        decreases v@.len() - k,
    {
        words.push(if v[k] {
            1
        } else {
            0
        });
        k += 1;
    }
    words
}

/// One boolean vector, sent as an unsigned integer vector: the call and the
/// integers.
pub fn update_bool(program: &GLProgram, u: SemIndex, v: &[bool]) -> (r: (Call, Vec<u32>))
    requires
        program.declares_uniform(u),
        2 <= v@.len() <= 4,
    ensures
        r.0 == (Call::UniformUiv {
            location: program.uni_sem_map@[u],
            dim: v@.len() as u32,
            count: 1,
        }),
        r.1@.len() == v@.len(),
        forall|k: int| 0 <= k < r.1@.len() ==> #[trigger] r.1@[k] == bool_word(v@[k]),
{
    (
        Call::UniformUiv { location: location(program, u), dim: v.len() as u32, count: 1 },
        bools_as_u32(v),
    )
}

/// An array of boolean vectors of `dim` components each, given component
/// after component, sent as unsigned integer vectors: the call and the
/// integers.
pub fn update_slice_bool(program: &GLProgram, u: SemIndex, dim: u32, v: &[bool]) -> (r: (
    Call,
    Vec<u32>,
))
    requires
        program.declares_uniform(u),
        1 <= dim <= 4,
        (v@.len() as int) % (dim as int) == 0,
    ensures
        r.0 == (Call::UniformUiv {
            location: program.uni_sem_map@[u],
            dim,
            count: ((v@.len() as int) / (dim as int)) as usize,
        }),
        r.1@.len() == v@.len(),
        forall|k: int| 0 <= k < r.1@.len() ==> #[trigger] r.1@[k] == bool_word(v@[k]),
{
    (
        Call::UniformUiv { location: location(program, u), dim, count: v.len() / dim as usize },
        bools_as_u32(v),
    )
}

/// Points the sampler with semantic `u` to the texture unit `unit`.
pub fn update_texture_unit(program: &GLProgram, u: SemIndex, unit: u32) -> (call: Call)
    requires
        program.declares_uniform(u),
        unit <= i32::MAX,
    ensures
        call == (Call::Uniform1i { location: program.uni_sem_map@[u], value: unit as i32 }),
{
    Call::Uniform1i { location: location(program, u), value: unit as i32 }
}

/// Ties the uniform block with semantic `u` to the binding point `binding`.
pub fn update_buffer_binding(program: &GLProgram, u: SemIndex, binding: u32) -> (call: Call)
    requires
        program.declares_block(u),
    ensures
        call == (Call::UniformBlockBinding {
            program: program.id,
            block: program.ubo_sem_map@[u],
            binding,
        }),
{
    let block = match program.block_index(u) {
        Some(block) => block,
        None => glenum::INVALID_INDEX,
    };
    Call::UniformBlockBinding { program: program.id, block, binding }
}

} // verus!
