use luminance_gl::call::Call;
use luminance_gl::gl33::buffer::GLBuffer;
use luminance_gl::gl33::tess::{
    aligned_offsets, attributeless, build, build_layout, component_weight, destroy_tess,
    dim_as_size, draw_routine, draw_unit,
    get_vertex_buffer, new_tess, off_align, offset_based_vertex_weight, opengl_mode,
    opengl_sized_type, set_component_format, set_point_line_size, set_vertex_pointers,
    vertex_format, Draw, GLTess, Mode, Step, TessError,
};
use luminance_gl::vertex::{Dim, Type, VertexComponentFormat};

fn component(comp_type: Type, dim: Dim, unit_size: usize, align: usize) -> VertexComponentFormat {
    VertexComponentFormat { comp_type, dim, unit_size, align }
}

fn position_color() -> Vec<VertexComponentFormat> {
    vec![component(Type::Floating, Dim::Dim3, 4, 4), component(Type::Floating, Dim::Dim4, 4, 4)]
}

#[test]
fn position_and_color_are_laid_out_at_0_and_12_with_stride_28() {
    let format = position_color();
    assert_eq!(aligned_offsets(&format), vec![0, 12]);
    assert_eq!(offset_based_vertex_weight(&format, &[0, 12]), 28);
    assert_eq!(build_layout(&format), (28, vec![0, 12]));
}

#[test]
fn offsets_are_ordered_and_multiples_of_their_alignment() {
    let format = vec![
        component(Type::Unsigned, Dim::Dim1, 1, 1),
        component(Type::Floating, Dim::Dim1, 4, 4),
        component(Type::Unsigned, Dim::Dim3, 2, 2),
        component(Type::Integral, Dim::Dim2, 4, 8),
        component(Type::Boolean, Dim::Dim1, 1, 3),
    ];
    let (stride, offsets) = build_layout(&format);
    assert_eq!(offsets, vec![0, 4, 8, 16, 24]);
    assert_eq!(stride, 25);
    for i in 0..offsets.len() {
        assert_eq!(offsets[i] % format[i].align, 0);
        if i > 0 {
            assert!(offsets[i - 1] <= offsets[i]);
        }
    }
}

#[test]
fn stride_is_aligned_to_the_first_component() {
    let format = vec![
        component(Type::Floating, Dim::Dim1, 4, 8),
        component(Type::Unsigned, Dim::Dim1, 1, 1),
    ];
    assert_eq!(build_layout(&format), (8, vec![0, 4]));
}

#[test]
fn empty_format_has_no_offsets_and_no_stride() {
    assert_eq!(build_layout(&[]), (0, Vec::<usize>::new()));
    assert_eq!(offset_based_vertex_weight(&position_color(), &[]), 0);
}

#[test]
fn off_align_rounds_up_to_a_multiple() {
    assert_eq!(off_align(0, 4), 0);
    assert_eq!(off_align(1, 4), 4);
    assert_eq!(off_align(4, 4), 4);
    assert_eq!(off_align(5, 4), 8);
    assert_eq!(off_align(13, 1), 13);
    assert_eq!(off_align(13, 16), 16);
    assert_eq!(off_align(7, 3), 9);
}

#[test]
fn off_align_agrees_with_masking_for_powers_of_two() {
    for align in [1usize, 2, 4, 8, 16, 64] {
        for off in 0usize..200 {
            let mask = align - 1;
            assert_eq!(off_align(off, align), (off + mask) & !mask);
        }
    }
}

#[test]
fn component_weight_is_dimension_times_unit_size() {
    assert_eq!(component_weight(&component(Type::Floating, Dim::Dim3, 4, 4)), 12);
    assert_eq!(component_weight(&component(Type::Unsigned, Dim::Dim4, 2, 2)), 8);
    assert_eq!(component_weight(&component(Type::Boolean, Dim::Dim1, 1, 1)), 1);
    assert_eq!(dim_as_size(&Dim::Dim1), 1);
    assert_eq!(dim_as_size(&Dim::Dim2), 2);
    assert_eq!(dim_as_size(&Dim::Dim3), 3);
    assert_eq!(dim_as_size(&Dim::Dim4), 4);
}

#[test]
fn sized_types_of_supported_components() {
    let ty = |t, size| opengl_sized_type(&component(t, Dim::Dim1, size, size));
    assert_eq!(ty(Type::Integral, 1), Some(gl::BYTE));
    assert_eq!(ty(Type::Integral, 2), Some(gl::SHORT));
    assert_eq!(ty(Type::Integral, 4), Some(gl::INT));
    assert_eq!(ty(Type::Unsigned, 1), Some(gl::UNSIGNED_BYTE));
    assert_eq!(ty(Type::Boolean, 1), Some(gl::UNSIGNED_BYTE));
    assert_eq!(ty(Type::Unsigned, 2), Some(gl::UNSIGNED_SHORT));
    assert_eq!(ty(Type::Unsigned, 4), Some(gl::UNSIGNED_INT));
    assert_eq!(ty(Type::Floating, 4), Some(gl::FLOAT));
}

#[test]
fn components_without_a_sized_type() {
    let ty = |t, size| opengl_sized_type(&component(t, Dim::Dim1, size, size));
    assert_eq!(ty(Type::Floating, 8), None);
    assert_eq!(ty(Type::Floating, 2), None);
    assert_eq!(ty(Type::Integral, 8), None);
    assert_eq!(ty(Type::Boolean, 4), None);
    assert_eq!(ty(Type::Unsigned, 3), None);
}

#[test]
fn topologies_map_to_their_codes() {
    assert_eq!(opengl_mode(Mode::Point), gl::POINTS);
    assert_eq!(opengl_mode(Mode::Line), gl::LINES);
    assert_eq!(opengl_mode(Mode::LineStrip), gl::LINE_STRIP);
    assert_eq!(opengl_mode(Mode::Triangle), gl::TRIANGLES);
    assert_eq!(opengl_mode(Mode::TriangleFan), gl::TRIANGLE_FAN);
    assert_eq!(opengl_mode(Mode::TriangleStrip), gl::TRIANGLE_STRIP);
}

#[test]
fn point_size_and_line_width_follow_the_topology() {
    let two = 2.0f32.to_bits();
    let one = 1.0f32.to_bits();
    assert_eq!(set_point_line_size(Mode::Point, Some(two)), vec![Call::PointSize { size: two }]);
    assert_eq!(set_point_line_size(Mode::Point, None), vec![Call::PointSize { size: one }]);
    assert_eq!(set_point_line_size(Mode::Line, Some(two)), vec![Call::LineWidth { width: two }]);
    assert_eq!(set_point_line_size(Mode::LineStrip, None), vec![Call::LineWidth { width: one }]);
    assert_eq!(set_point_line_size(Mode::Triangle, Some(two)), vec![]);
    assert_eq!(set_point_line_size(Mode::TriangleFan, None), vec![]);
    assert_eq!(set_point_line_size(Mode::TriangleStrip, Some(two)), vec![]);
}

#[test]
fn floating_components_take_the_floating_pointer_path() {
    let calls = set_component_format(2, 28, 12, &component(Type::Floating, Dim::Dim4, 4, 4));
    assert_eq!(
        calls,
        Some(vec![
            Call::VertexAttribPointer { index: 2, size: 4, ty: gl::FLOAT, normalized: false, stride: 28, offset: 12 },
            Call::EnableVertexAttribArray { index: 2 },
        ])
    );
}

#[test]
fn integer_and_boolean_components_take_the_integer_pointer_path() {
    for (t, size, code) in [
        (Type::Integral, 4usize, gl::INT),
        (Type::Unsigned, 2, gl::UNSIGNED_SHORT),
        (Type::Boolean, 1, gl::UNSIGNED_BYTE),
    ] {
        let calls = set_component_format(0, 16, 4, &component(t, Dim::Dim2, size, size));
        assert_eq!(
            calls,
            Some(vec![
                Call::VertexAttribIPointer { index: 0, size: 2, ty: code, stride: 16, offset: 4 },
                Call::EnableVertexAttribArray { index: 0 },
            ])
        );
    }
    assert_eq!(set_component_format(0, 16, 4, &component(Type::Floating, Dim::Dim2, 8, 8)), None);
}

#[test]
fn vertex_pointers_use_layout_offsets_and_stride() {
    assert_eq!(
        set_vertex_pointers(&position_color()),
        Ok(vec![
            Call::VertexAttribPointer { index: 0, size: 3, ty: gl::FLOAT, normalized: false, stride: 28, offset: 0 },
            Call::EnableVertexAttribArray { index: 0 },
            Call::VertexAttribPointer { index: 1, size: 4, ty: gl::FLOAT, normalized: false, stride: 28, offset: 12 },
            Call::EnableVertexAttribArray { index: 1 },
        ])
    );
    assert_eq!(set_vertex_pointers(&[]), Ok(vec![]));
}

#[test]
fn vertex_pointers_fail_on_the_first_unsupported_component() {
    let format = vec![
        component(Type::Floating, Dim::Dim3, 4, 4),
        component(Type::Floating, Dim::Dim1, 8, 8),
        component(Type::Integral, Dim::Dim1, 8, 8),
    ];
    assert_eq!(set_vertex_pointers(&format), Err(TessError::UnsupportedVertexFormat(1)));
}

#[test]
fn new_tess_without_indices_draws_arrays() {
    let (tess, steps) = new_tess(Mode::Triangle, 9, 4, position_color(), 3, None).unwrap();
    let vbo = GLBuffer { handle: 4, bytes: 84 };
    assert_eq!(
        tess,
        GLTess {
            render: Draw::Arrays { count: 3 },
            mode: Mode::Triangle,
            vao: 9,
            vbo: Some(vbo),
            ibo: None,
            vertex_format: position_color(),
            vert_nb: 3,
        }
    );
    assert_eq!(
        steps,
        vec![
            Step::Driver(Call::BindVertexArray { array: 9 }),
            Step::Driver(Call::BindBuffer { target: gl::ARRAY_BUFFER, buffer: 4 }),
            Step::Driver(Call::BufferData {
                target: gl::ARRAY_BUFFER,
                bytes: 84,
                usage: gl::STREAM_DRAW
            }),
            Step::Driver(Call::BindBuffer { target: gl::ARRAY_BUFFER, buffer: 0 }),
            Step::FillVertices(vbo),
            Step::Driver(Call::BindBuffer { target: gl::ARRAY_BUFFER, buffer: 4 }),
            Step::Driver(Call::VertexAttribPointer {
                index: 0,
                size: 3,
                ty: gl::FLOAT,
                normalized: false,
                stride: 28,
                offset: 0
            }),
            Step::Driver(Call::EnableVertexAttribArray { index: 0 }),
            Step::Driver(Call::VertexAttribPointer {
                index: 1,
                size: 4,
                ty: gl::FLOAT,
                normalized: false,
                stride: 28,
                offset: 12
            }),
            Step::Driver(Call::EnableVertexAttribArray { index: 1 }),
            Step::Driver(Call::BindVertexArray { array: 0 }),
        ]
    );
    assert_eq!(vertex_format(&tess), &position_color());
    assert_eq!(get_vertex_buffer(&tess), Some((vbo, 3)));
}

#[test]
fn new_tess_with_indices_draws_elements() {
    let format = vec![component(Type::Floating, Dim::Dim2, 4, 4)];
    let (tess, steps) = new_tess(Mode::TriangleStrip, 1, 2, format, 4, Some((3, 6))).unwrap();
    let vbo = GLBuffer { handle: 2, bytes: 32 };
    let ibo = GLBuffer { handle: 3, bytes: 24 };
    assert_eq!(tess.render, Draw::Elements { count: 6 });
    assert_eq!(tess.vbo, Some(vbo));
    assert_eq!(tess.ibo, Some(ibo));
    assert_eq!(tess.vert_nb, 4);
    assert_eq!(
        steps,
        vec![
            Step::Driver(Call::BindVertexArray { array: 1 }),
            Step::Driver(Call::BindBuffer { target: gl::ARRAY_BUFFER, buffer: 2 }),
            Step::Driver(Call::BufferData {
                target: gl::ARRAY_BUFFER,
                bytes: 32,
                usage: gl::STREAM_DRAW
            }),
            Step::Driver(Call::BindBuffer { target: gl::ARRAY_BUFFER, buffer: 0 }),
            Step::FillVertices(vbo),
            Step::Driver(Call::BindBuffer { target: gl::ARRAY_BUFFER, buffer: 2 }),
            Step::Driver(Call::VertexAttribPointer {
                index: 0,
                size: 2,
                ty: gl::FLOAT,
                normalized: false,
                stride: 8,
                offset: 0
            }),
            Step::Driver(Call::EnableVertexAttribArray { index: 0 }),
            Step::Driver(Call::BindBuffer { target: gl::ARRAY_BUFFER, buffer: 3 }),
            Step::Driver(Call::BufferData {
                target: gl::ARRAY_BUFFER,
                bytes: 24,
                usage: gl::STREAM_DRAW
            }),
            Step::Driver(Call::BindBuffer { target: gl::ARRAY_BUFFER, buffer: 0 }),
            Step::FillIndices(ibo),
            Step::Driver(Call::BindBuffer { target: gl::ELEMENT_ARRAY_BUFFER, buffer: 3 }),
            Step::Driver(Call::BindVertexArray { array: 0 }),
        ]
    );
}

#[test]
fn new_tess_rejects_an_unsupported_vertex_format() {
    let format = vec![component(Type::Floating, Dim::Dim1, 8, 8)];
    assert_eq!(
        new_tess(Mode::Point, 1, 2, format, 4, None),
        Err(TessError::UnsupportedVertexFormat(0))
    );
}

#[test]
fn attributeless_unit_owns_no_buffer() {
    let (tess, calls) = attributeless(Mode::Point, 6, 100);
    assert_eq!(
        tess,
        GLTess {
            render: Draw::Arrays { count: 100 },
            mode: Mode::Point,
            vao: 6,
            vbo: None,
            ibo: None,
            vertex_format: vec![],
            vert_nb: 100,
        }
    );
    assert_eq!(
        calls,
        vec![Call::BindVertexArray { array: 6 }, Call::BindVertexArray { array: 0 }]
    );
    assert_eq!(get_vertex_buffer(&tess), None);
    assert_eq!(destroy_tess(&tess), vec![Call::DeleteVertexArray { array: 6 }]);
}

#[test]
fn destroy_releases_the_array_and_every_buffer() {
    let format = vec![component(Type::Floating, Dim::Dim2, 4, 4)];
    let (indexed, _) = new_tess(Mode::Triangle, 1, 2, format.clone(), 4, Some((3, 6))).unwrap();
    assert_eq!(
        destroy_tess(&indexed),
        vec![
            Call::DeleteVertexArray { array: 1 },
            Call::DeleteBuffer { buffer: 2 },
            Call::DeleteBuffer { buffer: 3 },
        ]
    );
    let (plain, _) = new_tess(Mode::Triangle, 5, 6, format, 4, None).unwrap();
    assert_eq!(
        destroy_tess(&plain),
        vec![Call::DeleteVertexArray { array: 5 }, Call::DeleteBuffer { buffer: 6 }]
    );
}

#[test]
fn single_instance_draws_are_not_instanced() {
    let (arrays, _) = attributeless(Mode::Triangle, 6, 3);
    assert_eq!(
        arrays.draw(None, 1),
        vec![
            Call::BindVertexArray { array: 6 },
            Call::DrawArrays { mode: gl::TRIANGLES, first: 0, count: 3 },
        ]
    );
    let format = vec![component(Type::Floating, Dim::Dim2, 4, 4)];
    let (elements, _) = new_tess(Mode::Line, 1, 2, format, 4, Some((3, 6))).unwrap();
    assert_eq!(
        elements.draw(Some(3.0f32.to_bits()), 1),
        vec![
            Call::BindVertexArray { array: 1 },
            Call::LineWidth { width: 3.0f32.to_bits() },
            Call::DrawElements { mode: gl::LINES, count: 6, ty: gl::UNSIGNED_INT },
        ]
    );
}

#[test]
fn several_instances_draw_instanced() {
    let (arrays, _) = attributeless(Mode::Point, 6, 3);
    assert_eq!(
        arrays.draw(None, 2),
        vec![
            Call::BindVertexArray { array: 6 },
            Call::PointSize { size: 0x3F80_0000 },
            Call::DrawArraysInstanced { mode: gl::POINTS, first: 0, count: 3, instances: 2 },
        ]
    );
    let format = vec![component(Type::Floating, Dim::Dim2, 4, 4)];
    let (elements, _) = new_tess(Mode::TriangleFan, 1, 2, format, 4, Some((3, 6))).unwrap();
    assert_eq!(
        elements.draw(None, 7),
        vec![
            Call::BindVertexArray { array: 1 },
            Call::DrawElementsInstanced { mode: gl::TRIANGLE_FAN, count: 6, ty: gl::UNSIGNED_INT, instances: 7 },
        ]
    );
}

#[test]
fn build_plans_the_buffers_around_the_given_pointers() {
    let pointers = vec![Call::EnableVertexAttribArray { index: 3 }];
    let (steps, vbo, ibo) = build(1, 2, 40, &pointers, None);
    assert_eq!(vbo, GLBuffer { handle: 2, bytes: 40 });
    assert_eq!(ibo, None);
    assert_eq!(
        steps,
        vec![
            Step::Driver(Call::BindVertexArray { array: 1 }),
            Step::Driver(Call::BindBuffer { target: gl::ARRAY_BUFFER, buffer: 2 }),
            Step::Driver(Call::BufferData {
                target: gl::ARRAY_BUFFER,
                bytes: 40,
                usage: gl::STREAM_DRAW
            }),
            Step::Driver(Call::BindBuffer { target: gl::ARRAY_BUFFER, buffer: 0 }),
            Step::FillVertices(vbo),
            Step::Driver(Call::BindBuffer { target: gl::ARRAY_BUFFER, buffer: 2 }),
            Step::Driver(Call::EnableVertexAttribArray { index: 3 }),
            Step::Driver(Call::BindVertexArray { array: 0 }),
        ]
    );
    let (steps, _, ibo) = build(1, 2, 40, &pointers, Some((5, 3)));
    assert_eq!(ibo, Some(GLBuffer { handle: 5, bytes: 12 }));
    assert_eq!(steps.len(), 13);
    assert_eq!(steps[10], Step::FillIndices(GLBuffer { handle: 5, bytes: 12 }));
}

#[test]
fn draw_routine_goes_by_the_indices() {
    assert_eq!(draw_routine(7, None), Draw::Arrays { count: 7 });
    assert_eq!(draw_routine(7, Some((3, 12))), Draw::Elements { count: 12 });
    assert_eq!(draw_routine(7, Some((3, 0))), Draw::Elements { count: 0 });
}

#[test]
fn draws_start_with_the_first_vertex_and_read_32_bit_indices() {
    assert_eq!(
        draw_unit(4, Mode::TriangleStrip, Draw::Arrays { count: 9 }, None, 1),
        vec![
            Call::BindVertexArray { array: 4 },
            Call::DrawArrays { mode: gl::TRIANGLE_STRIP, first: 0, count: 9 },
        ]
    );
    assert_eq!(
        draw_unit(4, Mode::LineStrip, Draw::Elements { count: 9 }, None, 5),
        vec![
            Call::BindVertexArray { array: 4 },
            Call::LineWidth { width: 1.0f32.to_bits() },
            Call::DrawElementsInstanced {
                mode: gl::LINE_STRIP,
                count: 9,
                ty: gl::UNSIGNED_INT,
                instances: 5
            },
        ]
    );
}
