use luminance_gl::call::Call;
use luminance_gl::gl33::buffer::GLBuffer;
use luminance_gl::gl33::tess::{Draw, Mode, Step};
use luminance_gl::gl33::tessellation::{
    component_type_weight, component_weight, destroy, from_dim, from_mode, from_type, new,
    set_component_format, set_vertex_pointers, vertex_weight, GLTess, VertexComponentFormat,
};
use luminance_gl::vertex::{Dim, Type};

fn component(component_type: Type, dim: Dim) -> VertexComponentFormat {
    VertexComponentFormat { component_type, dim }
}

#[test]
fn packed_scalars_are_read_as_32_bit_types() {
    assert_eq!(from_type(&Type::Integral), gl::INT);
    assert_eq!(from_type(&Type::Boolean), gl::INT);
    assert_eq!(from_type(&Type::Unsigned), gl::UNSIGNED_INT);
    assert_eq!(from_type(&Type::Floating), gl::FLOAT);
    assert_eq!(from_dim(&Dim::Dim1), 1);
    assert_eq!(from_dim(&Dim::Dim2), 2);
    assert_eq!(from_dim(&Dim::Dim3), 3);
    assert_eq!(from_dim(&Dim::Dim4), 4);
}

#[test]
fn packed_topologies_map_to_their_codes() {
    assert_eq!(from_mode(Mode::Point), gl::POINTS);
    assert_eq!(from_mode(Mode::Line), gl::LINES);
    assert_eq!(from_mode(Mode::LineStrip), gl::LINE_STRIP);
    assert_eq!(from_mode(Mode::Triangle), gl::TRIANGLES);
    assert_eq!(from_mode(Mode::TriangleFan), gl::TRIANGLE_FAN);
    assert_eq!(from_mode(Mode::TriangleStrip), gl::TRIANGLE_STRIP);
}

#[test]
fn packed_weights() {
    assert_eq!(component_type_weight(&Type::Integral), std::mem::size_of::<i32>());
    assert_eq!(component_type_weight(&Type::Unsigned), std::mem::size_of::<u32>());
    assert_eq!(component_type_weight(&Type::Floating), std::mem::size_of::<f32>());
    assert_eq!(component_type_weight(&Type::Boolean), std::mem::size_of::<bool>());
    assert_eq!(component_weight(&component(Type::Floating, Dim::Dim3)), 12);
    assert_eq!(component_weight(&component(Type::Boolean, Dim::Dim4)), 4);
    assert_eq!(component_weight(&component(Type::Unsigned, Dim::Dim4)), 16);
    let format = [
        component(Type::Floating, Dim::Dim3),
        component(Type::Boolean, Dim::Dim1),
        component(Type::Integral, Dim::Dim2),
    ];
    assert_eq!(vertex_weight(&format), 21);
    assert_eq!(vertex_weight(&[]), 0);
}

#[test]
fn packed_pointers_follow_each_other_without_padding() {
    let format = [
        component(Type::Floating, Dim::Dim3),
        component(Type::Boolean, Dim::Dim1),
        component(Type::Integral, Dim::Dim2),
    ];
    assert_eq!(
        set_vertex_pointers(&format),
        vec![
            Call::VertexAttribPointer { index: 0, size: 3, ty: gl::FLOAT, normalized: false, stride: 21, offset: 0 },
            Call::EnableVertexAttribArray { index: 0 },
            Call::VertexAttribPointer { index: 1, size: 1, ty: gl::INT, normalized: false, stride: 21, offset: 12 },
            Call::EnableVertexAttribArray { index: 1 },
            Call::VertexAttribPointer { index: 2, size: 2, ty: gl::INT, normalized: false, stride: 21, offset: 13 },
            Call::EnableVertexAttribArray { index: 2 },
        ]
    );
    assert_eq!(
        set_component_format(5, 8, 4, &component(Type::Unsigned, Dim::Dim1)),
        vec![
            Call::VertexAttribPointer {
                index: 5,
                size: 1,
                ty: gl::UNSIGNED_INT,
                normalized: false,
                stride: 8,
                offset: 4
            },
            Call::EnableVertexAttribArray { index: 5 },
        ]
    );
}

#[test]
fn packed_unit_with_indices() {
    let format = [component(Type::Floating, Dim::Dim2)];
    let (tess, steps) = new(Mode::Triangle, 1, 2, &format, 4, Some((3, 6)));
    assert_eq!(
        tess,
        GLTess {
            render: Draw::Elements { count: 6 },
            mode: Mode::Triangle,
            vao: 1,
            buffers: vec![2, 3],
        }
    );
    assert_eq!(
        steps,
        vec![
            Step::Driver(Call::BindVertexArray { array: 1 }),
            Step::Driver(Call::BindBuffer { target: gl::ARRAY_BUFFER, buffer: 2 }),
            Step::Driver(Call::BufferData {
                target: gl::ARRAY_BUFFER,
                bytes: 32,
                usage: gl::STREAM_DRAW
            }),
            Step::Driver(Call::BindBuffer { target: gl::ARRAY_BUFFER, buffer: 0 }),
            Step::FillVertices(GLBuffer { handle: 2, bytes: 32 }),
            Step::Driver(Call::BindBuffer { target: gl::ARRAY_BUFFER, buffer: 2 }),
            Step::Driver(Call::VertexAttribPointer {
                index: 0,
                size: 2,
                ty: gl::FLOAT,
                normalized: false,
                stride: 8,
                offset: 0
            }),
            Step::Driver(Call::EnableVertexAttribArray { index: 0 }),
            Step::Driver(Call::BindBuffer { target: gl::ARRAY_BUFFER, buffer: 3 }),
            Step::Driver(Call::BufferData {
                target: gl::ARRAY_BUFFER,
                bytes: 24,
                usage: gl::STREAM_DRAW
            }),
            Step::Driver(Call::BindBuffer { target: gl::ARRAY_BUFFER, buffer: 0 }),
            Step::FillIndices(GLBuffer { handle: 3, bytes: 24 }),
            Step::Driver(Call::BindBuffer { target: gl::ELEMENT_ARRAY_BUFFER, buffer: 3 }),
            Step::Driver(Call::BindVertexArray { array: 0 }),
        ]
    );
    assert_eq!(
        destroy(&tess),
        vec![
            Call::DeleteVertexArray { array: 1 },
            Call::DeleteBuffer { buffer: 2 },
            Call::DeleteBuffer { buffer: 3 },
        ]
    );
    assert_eq!(
        tess.draw(None, 1),
        vec![
            Call::BindVertexArray { array: 1 },
            Call::DrawElements { mode: gl::TRIANGLES, count: 6, ty: gl::UNSIGNED_INT },
        ]
    );
    assert_eq!(
        tess.draw(None, 3),
        vec![
            Call::BindVertexArray { array: 1 },
            Call::DrawElementsInstanced { mode: gl::TRIANGLES, count: 6, ty: gl::UNSIGNED_INT, instances: 3 },
        ]
    );
}

#[test]
fn packed_unit_without_indices() {
    let format = [component(Type::Floating, Dim::Dim3), component(Type::Floating, Dim::Dim4)];
    let (tess, steps) = new(Mode::Point, 1, 2, &format, 10, None);
    assert_eq!(tess.render, Draw::Arrays { count: 10 });
    assert_eq!(tess.buffers, vec![2]);
    assert_eq!(steps.len(), 11);
    assert_eq!(steps[4], Step::FillVertices(GLBuffer { handle: 2, bytes: 280 }));
    assert_eq!(
        destroy(&tess),
        vec![Call::DeleteVertexArray { array: 1 }, Call::DeleteBuffer { buffer: 2 }]
    );
    assert_eq!(
        tess.draw(Some(8.0f32.to_bits()), 1),
        vec![
            Call::BindVertexArray { array: 1 },
            Call::PointSize { size: 8.0f32.to_bits() },
            Call::DrawArrays { mode: gl::POINTS, first: 0, count: 10 },
        ]
    );
}
