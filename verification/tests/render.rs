use luminance_gl::blending::{Equation, Factor};
use luminance_gl::call::Call;
use luminance_gl::gl33::framebuffer::GLFramebuffer;
use luminance_gl::gl33::pipeline::Step;
use luminance_gl::gl33::render::{run_frame_command, FrameCommand, RenderCommand, ShadingCommand};
use luminance_gl::gl33::tess::{Draw, Mode};
use luminance_gl::gl33::tessellation::GLTess;

fn unit(vao: u32) -> GLTess {
    GLTess { render: Draw::Arrays { count: 3 }, mode: Mode::Line, vao, buffers: vec![9] }
}

#[test]
fn frame_command_sets_state_before_the_callback_and_draws_after_it() {
    let cmd = FrameCommand {
        framebuffer: GLFramebuffer { handle: 2, renderbuffer: None, w: 4, h: 4 },
        shading_commands: vec![
            ShadingCommand {
                program: 40,
                render_commands: vec![
                    RenderCommand {
                        blending: Some((Equation::Max, Factor::One, Factor::Zero)),
                        depth_test: true,
                        tessellation: unit(1),
                        instances: 1,
                        rasterization_size: None,
                    },
                    RenderCommand {
                        blending: None,
                        depth_test: false,
                        tessellation: unit(2),
                        instances: 4,
                        rasterization_size: Some(2.0f32.to_bits()),
                    },
                ],
            },
            ShadingCommand { program: 41, render_commands: vec![] },
        ],
    };
    assert_eq!(
        run_frame_command(&cmd),
        vec![
            Step::Driver(Call::BindFramebuffer { target: gl::FRAMEBUFFER, framebuffer: 2 }),
            Step::Driver(Call::UseProgram { program: 40 }),
            Step::UpdateShading { shading: 0 },
            Step::Driver(Call::Enable { cap: gl::BLEND }),
            Step::Driver(Call::BlendEquation { mode: gl::MAX }),
            Step::Driver(Call::BlendFunc { src: gl::ONE, dst: gl::ZERO }),
            Step::Driver(Call::Enable { cap: gl::DEPTH_TEST }),
            Step::UpdateRender { shading: 0, render: 0 },
            Step::Driver(Call::BindVertexArray { array: 1 }),
            Step::Driver(Call::LineWidth { width: 1.0f32.to_bits() }),
            Step::Driver(Call::DrawArrays { mode: gl::LINES, first: 0, count: 3 }),
            Step::Driver(Call::Disable { cap: gl::BLEND }),
            Step::Driver(Call::Disable { cap: gl::DEPTH_TEST }),
            Step::UpdateRender { shading: 0, render: 1 },
            Step::Driver(Call::BindVertexArray { array: 2 }),
            Step::Driver(Call::LineWidth { width: 2.0f32.to_bits() }),
            Step::Driver(Call::DrawArraysInstanced { mode: gl::LINES, first: 0, count: 3, instances: 4 }),
            Step::Driver(Call::UseProgram { program: 41 }),
            Step::UpdateShading { shading: 1 },
        ]
    );
}

#[test]
fn frame_command_without_shading_commands_only_binds_its_target() {
    let cmd = FrameCommand {
        framebuffer: GLFramebuffer { handle: 0, renderbuffer: None, w: 4, h: 4 },
        shading_commands: vec![],
    };
    assert_eq!(
        run_frame_command(&cmd),
        vec![Step::Driver(Call::BindFramebuffer { target: gl::FRAMEBUFFER, framebuffer: 0 })]
    );
}
