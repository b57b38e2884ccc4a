//! Shader programs whose uniforms are mapped by name.

use vstd::prelude::*;
use crate::call::Call;
use crate::gl33::shader::program::linking;
use crate::glenum;

verus! {

#[derive(Clone, Debug, PartialEq, Eq)]
pub enum ProgramError {
    /// The stages did not link; the text is the driver's log.
    LinkFailed(String),
    /// The program does not use the uniform of this name.
    InactiveUniform(String),
}

/// Calls that attach the stages to the fresh program `program` and link it.
/// The link status is to be read once they have run.
pub fn link_program(
    program: u32,
    tess: Option<(u32, u32)>,
    vertex: u32,
    geometry: Option<u32>,
    fragment: u32,
) -> (calls: Vec<Call>)
    ensures
        calls@ == linking(program, tess, vertex, geometry, fragment),
{
    crate::gl33::shader::program::link_program(program, tess, vertex, geometry, fragment)
}

/// Whether a status that the driver reports for a link says that the program
/// is linked.
pub fn linked(link_status: u8) -> (yes: bool)
    ensures
        yes == (link_status == glenum::TRUE),
{
    link_status == glenum::TRUE
}

/// Concludes the linking planned by [`link_program`], given the link status
/// that the driver reports.
///
/// A linked program is its handle. Any other status is a failure that carries
/// `log`, the driver's log, and the call deletes the program.
pub fn new_program(program: u32, link_status: u8, log: String) -> (r: (
    Vec<Call>,
    Result<u32, ProgramError>,
))
    ensures
        link_status == glenum::TRUE ==> r.0@ == Seq::<Call>::empty() && r.1 == Ok::<
            u32,
            ProgramError,
        >(program),
        link_status != glenum::TRUE ==> r.0@ == seq![Call::DeleteProgram { program }] && r.1
            is Err && r.1->Err_0 is LinkFailed && r.1->Err_0->LinkFailed_0@ == log@,
{
    if linked(link_status) {
        (Vec::new(), Ok(program))
    } else {
        (vec![Call::DeleteProgram { program }], Err(ProgramError::LinkFailed(log)))
    }
}

/// The call that releases a program's handle.
pub fn free_program(program: u32) -> (calls: Vec<Call>)
    ensures
        calls@ == seq![Call::DeleteProgram { program }],
{
    vec![Call::DeleteProgram { program }]
}

/// Maps the uniform `name`, given the location that the driver reports for
/// it; the location -1 says that the program does not use the uniform.
pub fn map_uniform(location: i32, name: String) -> (r: Result<i32, ProgramError>)
    ensures
        location != -1 ==> r == Ok::<i32, ProgramError>(location),
        location == -1 ==> r is Err && r->Err_0 is InactiveUniform
            && r->Err_0->InactiveUniform_0@ == name@,
{
    if location != -1 {
        Ok(location)
    } else {
        Err(ProgramError::InactiveUniform(name))
    }
}

/// Calls around an update of the program's uniforms: the program is made
/// current before the update and none is current after it.
pub fn update_uniforms(program: u32) -> (r: (Vec<Call>, Vec<Call>))
    ensures
        r.0@ == seq![Call::UseProgram { program }],
        r.1@ == seq![Call::UseProgram { program: 0 }],
{
    (vec![Call::UseProgram { program }], vec![Call::UseProgram { program: 0 }])
}

} // verus!
