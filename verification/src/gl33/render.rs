//! The frame executor for frames without bound resource sets.
//!
//! A frame command binds its target and runs its shading commands; each
//! render command draws one unit. The state of a render command is set
//! before its update callback runs.

use vstd::prelude::*;
use crate::blending::{Equation, Factor};
use crate::call::{lift, push_calls, Call};
use crate::gl33::framebuffer::GLFramebuffer;
use crate::gl33::pipeline::{
    blending_state, depth_test_state, set_blending, set_depth_test, Step,
};
use crate::gl33::tessellation::{rendering, GLTess};
use crate::glenum;

verus! {

/// One draw of a unit under a blending and depth-test state.
#[derive(Clone, Debug, PartialEq, Eq)]
pub struct RenderCommand {
    pub blending: Option<(Equation, Factor, Factor)>,
    pub depth_test: bool,
    pub tessellation: GLTess,
    pub instances: u32,
    /// Point size or line width of the draw, as the bits of a
    /// single-precision value.
    pub rasterization_size: Option<u32>,
}

/// Render commands that run under one program, given by its handle.
#[derive(Clone, Debug, PartialEq, Eq)]
pub struct ShadingCommand {
    pub program: u32,
    pub render_commands: Vec<RenderCommand>,
}

/// A frame: a target and its shading commands.
#[derive(Clone, Debug, PartialEq, Eq)]
pub struct FrameCommand {
    pub framebuffer: GLFramebuffer,
    pub shading_commands: Vec<ShadingCommand>,
}

/// Steps of a render command: its blending and depth-test state, its
/// callback, then its draw.
pub open spec fn render_steps(shading: usize, render: usize, cmd: RenderCommand) -> Seq<Step> {
    lift(blending_state(cmd.blending) + depth_test_state(cmd.depth_test)) + seq![
        Step::UpdateRender { shading, render },
    ] + lift(rendering(cmd.tessellation, cmd.rasterization_size, cmd.instances))
}

/// Steps of the first `n` render commands of a shading command, in order.
pub open spec fn render_commands_steps(shading: usize, cmd: ShadingCommand, n: int) -> Seq<Step>
    decreases n,
{
    if n <= 0 {
        Seq::empty()
    } else {
        render_commands_steps(shading, cmd, n - 1) + render_steps(
            shading,
            (n - 1) as usize,
            cmd.render_commands@[n - 1],
        )
    }
}

/// Steps of a shading command: its program is made current, its callback
/// runs, then its render commands in order.
pub open spec fn shading_steps(shading: usize, cmd: ShadingCommand) -> Seq<Step> {
    seq![
        Step::Driver(Call::UseProgram { program: cmd.program }),
        Step::UpdateShading { shading },
    ] + render_commands_steps(shading, cmd, cmd.render_commands@.len() as int)
}

/// Steps of the first `n` shading commands of a frame, in order.
pub open spec fn shading_commands_steps(cmd: FrameCommand, n: int) -> Seq<Step>
    decreases n,
{
    if n <= 0 {
        Seq::empty()
    } else {
        shading_commands_steps(cmd, n - 1) + shading_steps(
            (n - 1) as usize,
            cmd.shading_commands@[n - 1],
        )
    }
}

/// Steps of a frame: its target is bound, then its shading commands run in
/// order.
pub open spec fn frame(cmd: FrameCommand) -> Seq<Step> {
    seq![
        Step::Driver(
            Call::BindFramebuffer {
                target: glenum::FRAMEBUFFER,
                framebuffer: cmd.framebuffer.handle,
            },
        ),
    ] + shading_commands_steps(cmd, cmd.shading_commands@.len() as int)
}

/// A frame that can run: every render command draws at least one instance.
pub open spec fn runnable(cmd: FrameCommand) -> bool {
    forall|i: int, j: int|
        0 <= i < cmd.shading_commands@.len() && 0 <= j
            < cmd.shading_commands@[i].render_commands@.len() ==> (
        #[trigger] cmd.shading_commands@[i].render_commands@[j]).instances >= 1
}

/// Steps of a frame, in the order in which they are to run.
pub fn run_frame_command(cmd: &FrameCommand) -> (steps: Vec<Step>)
    requires
        runnable(*cmd),
    ensures
        steps@ == frame(*cmd),
{
    let mut steps = vec![
        Step::Driver(
            Call::BindFramebuffer {
                target: glenum::FRAMEBUFFER,
                framebuffer: cmd.framebuffer.handle,
            },
        ),
    ];
    let ghost bound = steps@;
    let mut i: usize = 0;
    while i < cmd.shading_commands.len()
        invariant
            runnable(*cmd),
            i <= cmd.shading_commands@.len(),
            steps@ == bound + shading_commands_steps(*cmd, i as int),
        decreases cmd.shading_commands@.len() - i,
    {
        let shading_cmd = &cmd.shading_commands[i];
        let ghost before = steps@;
        steps.push(Step::Driver(Call::UseProgram { program: shading_cmd.program }));
        steps.push(Step::UpdateShading { shading: i });
        let ghost activated = steps@;
        let mut j: usize = 0;
        while j < shading_cmd.render_commands.len()
            invariant
                runnable(*cmd),
                i < cmd.shading_commands@.len(),
                *shading_cmd == cmd.shading_commands@[i as int],
                j <= shading_cmd.render_commands@.len(),
                steps@ == activated + render_commands_steps(i, *shading_cmd, j as int),
            decreases shading_cmd.render_commands@.len() - j,
        {
            let render_cmd = &shading_cmd.render_commands[j];
            let ghost earlier = steps@;
            let mut state = set_blending(render_cmd.blending);
            let mut depth = set_depth_test(render_cmd.depth_test);
            state.append(&mut depth);
            push_calls(&mut steps, &state);
            steps.push(Step::UpdateRender { shading: i, render: j });
            let draw = render_cmd.tessellation.draw(
                render_cmd.rasterization_size,
                render_cmd.instances,
            );
            push_calls(&mut steps, &draw);
            assert(steps@ =~= earlier + render_steps(i, j, *render_cmd));
            j += 1;
            assert(steps@ =~= activated + render_commands_steps(i, *shading_cmd, j as int));
        }
        assert(steps@ =~= before + shading_steps(i, *shading_cmd));
        i += 1;
        assert(steps@ =~= bound + shading_commands_steps(*cmd, i as int));
    }
    steps
}

} // verus!
