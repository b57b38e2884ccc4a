//! The pipeline executor: a pipeline tree turned into the steps that run it.
//!
//! A pipeline holds shading commands, a shading command holds render
//! commands, and a render command holds drawable units. Every node of the
//! tree comes with an update callback of the caller, which pushes uniform
//! values. The executor emits the nodes' driver calls and the points at which
//! the callbacks run in the literal order of the tree: nothing is reordered,
//! merged or dropped.

use vstd::prelude::*;
use crate::blending::{Equation, Factor};
use crate::call::{lift, push_calls, Call};
use crate::gl33::buffer::GLBuffer;
use crate::gl33::framebuffer::GLFramebuffer;
use crate::gl33::tess::{draw_call, rendering, GLTess};
use crate::gl33::texture::GLTexture;
use crate::glenum;

verus! {

/// Draws of some units under one blending and depth-test state.
#[derive(Clone, Debug, PartialEq, Eq)]
pub struct RenderCommand {
    pub blending: Option<(Equation, Factor, Factor)>,
    pub depth_test: bool,
    pub tessellations: Vec<GLTess>,
    pub instances: u32,
    /// Point size or line width of the draws, as the bits of a
    /// single-precision value.
    pub rasterization_size: Option<u32>,
}

/// Render commands that run under one program, given by its handle.
#[derive(Clone, Debug, PartialEq, Eq)]
pub struct ShadingCommand {
    pub program: u32,
    pub render_commands: Vec<RenderCommand>,
}

/// A frame: a target, the color it is cleared to (as the bits of four
/// single-precision values), the textures and uniform buffers bound for it,
/// and its shading commands.
#[derive(Clone, Debug, PartialEq, Eq)]
pub struct Pipeline {
    pub framebuffer: GLFramebuffer,
    pub clear_color: [u32; 4],
    pub texture_set: Vec<GLTexture>,
    pub buffer_set: Vec<GLBuffer>,
    pub shading_commands: Vec<ShadingCommand>,
}

/// One step of a frame.
#[derive(Clone, Copy, Debug, PartialEq, Eq, Structural)]
pub enum Step {
    Driver(Call),
    /// Run the update callback of shading command `shading`.
    UpdateShading { shading: usize },
    /// Run the update callback of render command `render` of shading command
    /// `shading`.
    UpdateRender { shading: usize, render: usize },
    /// Run the update callback of unit `tess` of that render command.
    UpdateTess { shading: usize, render: usize, tess: usize },
}

impl crate::call::FromCall for Step {
    open spec fn of_call(call: Call) -> Step {
        Step::Driver(call)
    }

    fn driver(call: Call) -> (step: Step) {
        Step::Driver(call)
    }
}

pub open spec fn equation_code(equation: Equation) -> u32 {
    match equation {
        Equation::Additive => glenum::FUNC_ADD,
        Equation::Subtract => glenum::FUNC_SUBTRACT,
        Equation::ReverseSubtract => glenum::FUNC_REVERSE_SUBTRACT,
        Equation::Min => glenum::MIN,
        Equation::Max => glenum::MAX,
    }
}

pub open spec fn factor_code(factor: Factor) -> u32 {
    match factor {
        Factor::One => glenum::ONE,
        Factor::Zero => glenum::ZERO,
        Factor::SrcColor => glenum::SRC_COLOR,
        Factor::SrcColorComplement => glenum::ONE_MINUS_SRC_COLOR,
        Factor::DestColor => glenum::DST_COLOR,
        Factor::DestColorComplement => glenum::ONE_MINUS_DST_COLOR,
        Factor::SrcAlpha => glenum::SRC_ALPHA,
        Factor::SrcAlphaComplement => glenum::ONE_MINUS_SRC_ALPHA,
        Factor::DstAlpha => glenum::DST_ALPHA,
        Factor::DstAlphaComplement => glenum::ONE_MINUS_DST_ALPHA,
        Factor::SrcAlphaSaturate => glenum::SRC_ALPHA_SATURATE,
    }
}

/// Calls that switch blending on with an equation and two factors, or off.
pub open spec fn blending_state(blending: Option<(Equation, Factor, Factor)>) -> Seq<Call> {
    match blending {
        Some(b) => seq![
            Call::Enable { cap: glenum::BLEND },
            Call::BlendEquation { mode: equation_code(b.0) },
            Call::BlendFunc { src: factor_code(b.1), dst: factor_code(b.2) },
        ],
        None => seq![Call::Disable { cap: glenum::BLEND }],
    }
}

/// The call that switches the depth test on or off.
pub open spec fn depth_test_state(test: bool) -> Seq<Call> {
    if test {
        seq![Call::Enable { cap: glenum::DEPTH_TEST }]
    } else {
        seq![Call::Disable { cap: glenum::DEPTH_TEST }]
    }
}

/// Steps of one unit of a render command: its callback, then its draw.
pub open spec fn tess_steps(shading: usize, render: usize, cmd: RenderCommand, tess: int) -> Seq<
    Step,
> {
    seq![Step::UpdateTess { shading, render, tess: tess as usize }] + lift(
        rendering(cmd.tessellations@[tess], cmd.rasterization_size, cmd.instances),
    )
}

/// Steps of the first `n` units of a render command, in order.
pub open spec fn tessellation_steps(shading: usize, render: usize, cmd: RenderCommand, n: int) -> Seq<
    Step,
>
    decreases n,
{
    if n <= 0 {
        Seq::empty()
    } else {
        tessellation_steps(shading, render, cmd, n - 1) + tess_steps(shading, render, cmd, n - 1)
    }
}

/// Steps of a render command: its callback, its blending and depth-test
/// state, then its units in order.
pub open spec fn render_steps(shading: usize, render: usize, cmd: RenderCommand) -> Seq<Step> {
    seq![Step::UpdateRender { shading, render }] + lift(
        blending_state(cmd.blending) + depth_test_state(cmd.depth_test),
    ) + tessellation_steps(shading, render, cmd, cmd.tessellations@.len() as int)
}

/// Steps of the first `n` render commands of a shading command, in order.
pub open spec fn render_commands_steps(shading: usize, cmd: ShadingCommand, n: int) -> Seq<Step>
    decreases n,
{
    if n <= 0 {
        Seq::empty()
    } else {
        render_commands_steps(shading, cmd, n - 1) + render_steps(
            shading,
            (n - 1) as usize,
            cmd.render_commands@[n - 1],
        )
    }
}

/// Steps of a shading command: its program is made current, its callback
/// runs, then its render commands in order.
pub open spec fn shading_steps(shading: usize, cmd: ShadingCommand) -> Seq<Step> {
    seq![
        Step::Driver(Call::UseProgram { program: cmd.program }),
        Step::UpdateShading { shading },
    ] + render_commands_steps(shading, cmd, cmd.render_commands@.len() as int)
}

/// Steps of the first `n` shading commands of a pipeline, in order.
pub open spec fn shading_commands_steps(cmd: Pipeline, n: int) -> Seq<Step>
    decreases n,
{
    if n <= 0 {
        Seq::empty()
    } else {
        shading_commands_steps(cmd, n - 1) + shading_steps(
            (n - 1) as usize,
            cmd.shading_commands@[n - 1],
        )
    }
}

/// Calls that bind the first `n` textures, each to the unit of its position.
pub open spec fn texture_bindings(textures: Seq<GLTexture>, n: int) -> Seq<Call>
    decreases n,
{
    if n <= 0 {
        Seq::empty()
    } else {
        texture_bindings(textures, n - 1) + seq![
            Call::ActiveTexture { unit: (glenum::TEXTURE0 + (n - 1)) as u32 },
            Call::BindTexture { target: textures[n - 1].target, texture: textures[n - 1].handle },
        ]
    }
}

/// Calls that bind the first `n` buffers, each to the uniform binding of its
/// position.
pub open spec fn buffer_bindings(buffers: Seq<GLBuffer>, n: int) -> Seq<Call> {
    Seq::new(
        n as nat,
        |i: int|
            Call::BindBufferBase {
                target: glenum::UNIFORM_BUFFER,
                index: i as u32,
                buffer: buffers[i].handle,
            },
    )
}

/// Calls that open a frame: the target is bound, the viewport covers it,
/// color and depth are cleared, and the textures and buffers are bound.
pub open spec fn frame_setup(cmd: Pipeline) -> Seq<Call> {
    seq![
        Call::BindFramebuffer { target: glenum::FRAMEBUFFER, framebuffer: cmd.framebuffer.handle },
        Call::Viewport { origin_x: 0, origin_y: 0, width: cmd.framebuffer.w, height: cmd.framebuffer.h },
        Call::ClearColor {
            red: cmd.clear_color@[0],
            green: cmd.clear_color@[1],
            blue: cmd.clear_color@[2],
            alpha: cmd.clear_color@[3],
        },
        Call::Clear { mask: glenum::COLOR_BUFFER_BIT | glenum::DEPTH_BUFFER_BIT },
    ] + texture_bindings(cmd.texture_set@, cmd.texture_set@.len() as int) + buffer_bindings(
        cmd.buffer_set@,
        cmd.buffer_set@.len() as int,
    )
}

/// Steps of a frame: its setup, then its shading commands in order.
pub open spec fn frame(cmd: Pipeline) -> Seq<Step> {
    lift(frame_setup(cmd)) + shading_commands_steps(cmd, cmd.shading_commands@.len() as int)
}

/// A render command that can run: where it has units to draw, it draws at
/// least one instance of each.
pub open spec fn runnable_render(cmd: RenderCommand) -> bool {
    cmd.tessellations@.len() > 0 ==> cmd.instances >= 1
}

/// A shading command whose render commands can all run.
pub open spec fn runnable_shading(cmd: ShadingCommand) -> bool {
    forall|j: int|
        0 <= j < cmd.render_commands@.len() ==> runnable_render(#[trigger] cmd.render_commands@[j])
}

/// A pipeline that can run: its bound resources can be numbered by the
/// driver, and all its shading commands can run.
pub open spec fn runnable(cmd: Pipeline) -> bool {
    &&& cmd.texture_set@.len() <= u32::MAX - glenum::TEXTURE0
    &&& cmd.buffer_set@.len() <= u32::MAX
    &&& forall|i: int|
        0 <= i < cmd.shading_commands@.len() ==> runnable_shading(
            #[trigger] cmd.shading_commands@[i],
        )
}

pub fn from_blending_equation(equation: Equation) -> (code: u32)
    ensures
        code == equation_code(equation),
{
    match equation {
        Equation::Additive => glenum::FUNC_ADD,
        Equation::Subtract => glenum::FUNC_SUBTRACT,
        Equation::ReverseSubtract => glenum::FUNC_REVERSE_SUBTRACT,
        Equation::Min => glenum::MIN,
        Equation::Max => glenum::MAX,
    }
}

pub fn from_blending_factor(factor: Factor) -> (code: u32)
    ensures
        code == factor_code(factor),
{
    match factor {
        Factor::One => glenum::ONE,
        Factor::Zero => glenum::ZERO,
        Factor::SrcColor => glenum::SRC_COLOR,
        Factor::SrcColorComplement => glenum::ONE_MINUS_SRC_COLOR,
        Factor::DestColor => glenum::DST_COLOR,
        Factor::DestColorComplement => glenum::ONE_MINUS_DST_COLOR,
        Factor::SrcAlpha => glenum::SRC_ALPHA,
        Factor::SrcAlphaComplement => glenum::ONE_MINUS_SRC_ALPHA,
        Factor::DstAlpha => glenum::DST_ALPHA,
        Factor::DstAlphaComplement => glenum::ONE_MINUS_DST_ALPHA,
        Factor::SrcAlphaSaturate => glenum::SRC_ALPHA_SATURATE,
    }
}

/// Calls that switch blending on with an equation and two factors, or off.
pub fn set_blending(blending: Option<(Equation, Factor, Factor)>) -> (calls: Vec<Call>)
    ensures
        calls@ == blending_state(blending),
{
    match blending {
        Some((equation, src_factor, dest_factor)) => vec![
            Call::Enable { cap: glenum::BLEND },
            Call::BlendEquation { mode: from_blending_equation(equation) },
            Call::BlendFunc {
                src: from_blending_factor(src_factor),
                dst: from_blending_factor(dest_factor),
            },
        ],
        None => vec![Call::Disable { cap: glenum::BLEND }],
    }
}

/// The call that switches the depth test on or off.
pub fn set_depth_test(test: bool) -> (calls: Vec<Call>)
    ensures
        calls@ == depth_test_state(test),
{
    if test {
        vec![Call::Enable { cap: glenum::DEPTH_TEST }]
    } else {
        vec![Call::Disable { cap: glenum::DEPTH_TEST }]
    }
}

/// Steps of render command `render` of shading command `shading`.
pub fn run_render_command(shading: usize, render: usize, cmd: &RenderCommand) -> (steps: Vec<Step>)
    requires
        runnable_render(*cmd),
    ensures
        steps@ == render_steps(shading, render, *cmd),
{
    let mut steps = vec![Step::UpdateRender { shading, render }];
    let mut state = set_blending(cmd.blending);
    let mut depth = set_depth_test(cmd.depth_test);
    state.append(&mut depth);
    push_calls(&mut steps, &state);
    let ghost prepared = steps@;
    let mut k: usize = 0;
    while k < cmd.tessellations.len()
        invariant
            runnable_render(*cmd),
            k <= cmd.tessellations@.len(),
            steps@ == prepared + tessellation_steps(shading, render, *cmd, k as int),
        decreases cmd.tessellations@.len() - k,
    {
        let ghost before = steps@;
        steps.push(Step::UpdateTess { shading, render, tess: k });
        let draw = cmd.tessellations[k].draw(cmd.rasterization_size, cmd.instances);
        push_calls(&mut steps, &draw);
        assert(steps@ =~= before + tess_steps(shading, render, *cmd, k as int));
        k += 1;
        assert(steps@ =~= prepared + tessellation_steps(shading, render, *cmd, k as int));
    }
    assert(steps@ =~= render_steps(shading, render, *cmd));
    steps
}

/// Steps of shading command `shading`.
pub fn run_shading_command(shading: usize, cmd: &ShadingCommand) -> (steps: Vec<Step>)
    requires
        runnable_shading(*cmd),
    ensures
        steps@ == shading_steps(shading, *cmd),
{
    let mut steps = vec![
        Step::Driver(Call::UseProgram { program: cmd.program }),
        Step::UpdateShading { shading },
    ];
    let ghost activated = steps@;
    let mut j: usize = 0;
    while j < cmd.render_commands.len()
        invariant
            runnable_shading(*cmd),
            j <= cmd.render_commands@.len(),
            steps@ == activated + render_commands_steps(shading, *cmd, j as int),
        decreases cmd.render_commands@.len() - j,
    {
        let mut render = run_render_command(shading, j, &cmd.render_commands[j]);
        steps.append(&mut render);
        j += 1;
        assert(steps@ =~= activated + render_commands_steps(shading, *cmd, j as int));
    }
    steps
}

/// Steps of a frame, in the order in which they are to run.
pub fn run_pipeline(cmd: &Pipeline) -> (steps: Vec<Step>)
    requires
        runnable(*cmd),
    ensures
        steps@ == frame(*cmd),
{
    let mut calls = vec![
        Call::BindFramebuffer { target: glenum::FRAMEBUFFER, framebuffer: cmd.framebuffer.handle },
        Call::Viewport { origin_x: 0, origin_y: 0, width: cmd.framebuffer.w, height: cmd.framebuffer.h },
        Call::ClearColor {
            red: cmd.clear_color[0],
            green: cmd.clear_color[1],
            blue: cmd.clear_color[2],
            alpha: cmd.clear_color[3],
        },
        Call::Clear { mask: glenum::COLOR_BUFFER_BIT | glenum::DEPTH_BUFFER_BIT },
    ];
    let ghost cleared = calls@;
    let mut unit: usize = 0;
    while unit < cmd.texture_set.len()
        invariant
            runnable(*cmd),
            unit <= cmd.texture_set@.len(),
            calls@ == cleared + texture_bindings(cmd.texture_set@, unit as int),
        decreases cmd.texture_set@.len() - unit,
    {
        let tex = &cmd.texture_set[unit];
        calls.push(Call::ActiveTexture { unit: glenum::TEXTURE0 + unit as u32 });
        calls.push(Call::BindTexture { target: tex.target, texture: tex.handle });
        unit += 1;
        assert(calls@ =~= cleared + texture_bindings(cmd.texture_set@, unit as int));
    }
    let ghost textured = calls@;
    let mut index: usize = 0;
    while index < cmd.buffer_set.len()
        invariant
            runnable(*cmd),
            index <= cmd.buffer_set@.len(),
            calls@ == textured + buffer_bindings(cmd.buffer_set@, index as int),
        decreases cmd.buffer_set@.len() - index,
    {
        calls.push(
            Call::BindBufferBase {
                target: glenum::UNIFORM_BUFFER,
                index: index as u32,
                buffer: cmd.buffer_set[index].handle,
            },
        );
        index += 1;
        assert(calls@ =~= textured + buffer_bindings(cmd.buffer_set@, index as int));
    }
    assert(calls@ =~= frame_setup(*cmd));
    let mut steps: Vec<Step> = Vec::new();
    push_calls(&mut steps, &calls);
    let ghost set_up = steps@;
    assert(set_up =~= lift(frame_setup(*cmd)));
    let mut i: usize = 0;
    while i < cmd.shading_commands.len()
        invariant
            runnable(*cmd),
            i <= cmd.shading_commands@.len(),
            steps@ == set_up + shading_commands_steps(*cmd, i as int),
        decreases cmd.shading_commands@.len() - i,
    {
        let mut shading = run_shading_command(i, &cmd.shading_commands[i]);
        steps.append(&mut shading);
        i += 1;
        assert(steps@ =~= set_up + shading_commands_steps(*cmd, i as int));
    }
    steps
}

/// A shading command's program is made current before anything else of the
/// command happens, and its callback runs next, before any of its render
/// commands.
pub proof fn lemma_program_active_first(shading: usize, cmd: ShadingCommand)
    ensures
        shading_steps(shading, cmd).len() >= 2,
        shading_steps(shading, cmd)[0] == Step::Driver(Call::UseProgram { program: cmd.program }),
        shading_steps(shading, cmd)[1] == (Step::UpdateShading { shading }),
        shading_steps(shading, cmd).skip(2) == render_commands_steps(
            shading,
            cmd,
            cmd.render_commands@.len() as int,
        ),
{
    assert(shading_steps(shading, cmd).skip(2) =~= render_commands_steps(
        shading,
        cmd,
        cmd.render_commands@.len() as int,
    ));
}

/// The callback of a unit runs before the unit's vertex array is bound, and
/// the unit's draw call is the last of its steps.
pub proof fn lemma_update_before_draw(shading: usize, render: usize, cmd: RenderCommand, tess: int)
    requires
        0 <= tess < cmd.tessellations@.len(),
    ensures
        tess_steps(shading, render, cmd, tess)[0] == (Step::UpdateTess {
            shading,
            render,
            tess: tess as usize,
        }),
        tess_steps(shading, render, cmd, tess)[1] == Step::Driver(
            Call::BindVertexArray { array: cmd.tessellations@[tess].vao },
        ),
        tess_steps(shading, render, cmd, tess).last() == Step::Driver(
            draw_call(
                cmd.tessellations@[tess].render,
                cmd.tessellations@[tess].mode,
                cmd.instances,
            ),
        ),
{
    let calls = rendering(cmd.tessellations@[tess], cmd.rasterization_size, cmd.instances);
    assert(calls.len() >= 2);
    assert(calls[0] == Call::BindVertexArray { array: cmd.tessellations@[tess].vao });
    assert(calls.last() == draw_call(
        cmd.tessellations@[tess].render,
        cmd.tessellations@[tess].mode,
        cmd.instances,
    ));
    assert(lift::<Step>(calls).len() == calls.len());
    assert(lift::<Step>(calls)[0] == Step::Driver(calls[0]));
    assert(lift::<Step>(calls).last() == Step::Driver(calls.last()));
}

} // verus!
