//! Shader stages: source preparation and the outcome of compilation.

use vstd::prelude::*;
use vstd::string::StringExecFns;
use crate::call::Call;
use crate::glenum;

verus! {

/// Kind of a shader stage.
#[derive(Clone, Copy, Debug, PartialEq, Eq, Structural)]
pub enum Type {
    TessellationControlShader,
    TessellationEvaluationShader,
    VertexShader,
    GeometryShader,
    FragmentShader,
}

#[derive(Clone, Debug, PartialEq, Eq)]
pub enum StageError {
    /// The stage of this kind did not compile; the text says why.
    CompilationFailed(Type, String),
    UnsupportedType(Type),
}

/// The lines that head every stage's source: the language version and the
/// extension that the backend relies on.
pub open spec fn pragma() -> Seq<char> {
    "#version 330 core\n#extension GL_ARB_separate_shader_objects : require\n"@
}

pub open spec fn shader_type_code(t: Type) -> u32 {
    match t {
        Type::TessellationControlShader => glenum::TESS_CONTROL_SHADER,
        Type::TessellationEvaluationShader => glenum::TESS_EVALUATION_SHADER,
        Type::VertexShader => glenum::VERTEX_SHADER,
        Type::GeometryShader => glenum::GEOMETRY_SHADER,
        Type::FragmentShader => glenum::FRAGMENT_SHADER,
    }
}

/// Driver code of a stage kind, with which the stage's object is created.
pub fn from_shader_type(t: Type) -> (code: u32)
    ensures
        code == shader_type_code(t),
{
    match t {
        Type::TessellationControlShader => glenum::TESS_CONTROL_SHADER,
        Type::TessellationEvaluationShader => glenum::TESS_EVALUATION_SHADER,
        Type::VertexShader => glenum::VERTEX_SHADER,
        Type::GeometryShader => glenum::GEOMETRY_SHADER,
        Type::FragmentShader => glenum::FRAGMENT_SHADER,
    }
}

/// The source that is handed to the compiler: `src` behind the heading lines.
pub fn glsl_pragma_src(src: &str) -> (full: String)
    ensures
        full@ == pragma() + src@,
{
    let mut full = String::from_str(
        "#version 330 core\n#extension GL_ARB_separate_shader_objects : require\n",
    );
    full.append(src);
    full
}

/// Calls that hand the prepared source to the stage object `handle` and
/// compile it. The compile status is to be read once they have run.
///
/// Fails where the driver gave no object, which it reports as the handle 0.
pub fn compile_shader(shader_type: Type, handle: u32) -> (r: Result<Vec<Call>, StageError>)
    ensures
        handle != 0 ==> r is Ok && r->Ok_0@ == seq![
            Call::ShaderSource { shader: handle },
            Call::CompileShader { shader: handle },
        ],
        handle == 0 ==> r is Err && r->Err_0 is CompilationFailed && r->Err_0->CompilationFailed_0
            == shader_type && r->Err_0->CompilationFailed_1@ == "unable to create shader stage"@,
{
    if handle == 0 {
        return Err(
            StageError::CompilationFailed(
                shader_type,
                String::from_str("unable to create shader stage"),
            ),
        );
    }
    Ok(vec![Call::ShaderSource { shader: handle }, Call::CompileShader { shader: handle }])
}

/// Whether a status that the driver reports for a compilation says that the
/// stage is compiled.
pub fn compiled(compile_status: i32) -> (yes: bool)
    ensures
        yes == (compile_status == glenum::TRUE),
{
    compile_status == glenum::TRUE as i32
}

/// Concludes the compilation planned by [`compile_shader`], given the compile
/// status that the driver reports.
///
/// A compiled stage is its handle. Any other status is a failure that carries
/// `log`, the driver's log, and the call deletes the stage object.
pub fn new_shader(shader_type: Type, handle: u32, compile_status: i32, log: String) -> (r: (
    Vec<Call>,
    Result<u32, StageError>,
))
    ensures
        compile_status == glenum::TRUE ==> r.0@ == Seq::<Call>::empty() && r.1 == Ok::<
            u32,
            StageError,
        >(handle),
        compile_status != glenum::TRUE ==> r.0@ == seq![Call::DeleteShader { shader: handle }]
            && r.1 is Err && r.1->Err_0 is CompilationFailed && r.1->Err_0->CompilationFailed_0
            == shader_type && r.1->Err_0->CompilationFailed_1@ == log@,
{
    if compiled(compile_status) {
        (Vec::new(), Ok(handle))
    } else {
        (
            vec![Call::DeleteShader { shader: handle }],
            Err(StageError::CompilationFailed(shader_type, log)),
        )
    }
}

/// The call that releases a stage's object.
pub fn free_shader(shader: u32) -> (calls: Vec<Call>)
    ensures
        calls@ == seq![Call::DeleteShader { shader }],
{
    vec![Call::DeleteShader { shader }]
}

} // verus!
