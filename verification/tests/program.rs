use luminance_gl::call::Call;
use luminance_gl::gl33::shader::program::{
    bools_as_u32, free_program, get_uniform_location, is_active, link_program, linked,
    located_by_block, new_program, update1_bool,
    update1_f32, update1_i32, update1_u32, update_bool, update_buffer_binding, update_f32,
    update_i32, update_matrix_f32, update_matrix_slice_f32, update_slice_bool, update_slice_f32,
    update_slice_i32, update_slice_u32, update_texture_unit, update_u32, update_uniforms,
    uniform_type_match, Dim, GLProgram, Location, ProgramError, Reflected, Sem, Type,
    UniformWarning,
};

fn sem(index: u32, name: &str, ty: Type, dim: Dim) -> Sem {
    Sem { index, name: String::from(name), ty, dim }
}

fn reflected(location: i32, typ: u32) -> Reflected {
    Reflected { location, block: gl::INVALID_INDEX, size: 1, typ }
}

fn link(sems: &[Sem], reports: &[Reflected]) -> (GLProgram, Vec<UniformWarning>) {
    let (calls, outcome) = new_program(12, gl::TRUE as i32, sems, reports, String::new());
    assert_eq!(calls, vec![]);
    outcome.unwrap()
}

#[test]
fn stages_are_attached_in_order_and_linked() {
    assert_eq!(
        link_program(12, None, 1, None, 2),
        vec![
            Call::AttachShader { program: 12, shader: 1 },
            Call::AttachShader { program: 12, shader: 2 },
            Call::LinkProgram { program: 12 },
        ]
    );
    assert_eq!(
        link_program(12, Some((3, 4)), 1, Some(5), 2),
        vec![
            Call::AttachShader { program: 12, shader: 3 },
            Call::AttachShader { program: 12, shader: 4 },
            Call::AttachShader { program: 12, shader: 1 },
            Call::AttachShader { program: 12, shader: 5 },
            Call::AttachShader { program: 12, shader: 2 },
            Call::LinkProgram { program: 12 },
        ]
    );
    assert_eq!(
        link_program(12, None, 1, Some(5), 2),
        vec![
            Call::AttachShader { program: 12, shader: 1 },
            Call::AttachShader { program: 12, shader: 5 },
            Call::AttachShader { program: 12, shader: 2 },
            Call::LinkProgram { program: 12 },
        ]
    );
}

#[test]
fn matching_types_raise_no_complaint() {
    let cases = [
        (Type::Integral, Dim::Dim1, gl::INT),
        (Type::Integral, Dim::Dim2, gl::INT_VEC2),
        (Type::Integral, Dim::Dim3, gl::INT_VEC3),
        (Type::Integral, Dim::Dim4, gl::INT_VEC4),
        (Type::Unsigned, Dim::Dim1, gl::UNSIGNED_INT),
        (Type::Unsigned, Dim::Dim2, gl::UNSIGNED_INT_VEC2),
        (Type::Unsigned, Dim::Dim3, gl::UNSIGNED_INT_VEC3),
        (Type::Unsigned, Dim::Dim4, gl::UNSIGNED_INT_VEC4),
        (Type::Floating, Dim::Dim1, gl::FLOAT),
        (Type::Floating, Dim::Dim2, gl::FLOAT_VEC2),
        (Type::Floating, Dim::Dim3, gl::FLOAT_VEC3),
        (Type::Floating, Dim::Dim4, gl::FLOAT_VEC4),
        (Type::Floating, Dim::Dim22, gl::FLOAT_MAT2),
        (Type::Floating, Dim::Dim33, gl::FLOAT_MAT3),
        (Type::Floating, Dim::Dim44, gl::FLOAT_MAT4),
        (Type::Boolean, Dim::Dim1, gl::BOOL),
        (Type::Boolean, Dim::Dim2, gl::BOOL_VEC2),
        (Type::Boolean, Dim::Dim3, gl::BOOL_VEC3),
        (Type::Boolean, Dim::Dim4, gl::BOOL_VEC4),
    ];
    for (ty, dim, code) in cases {
        assert_eq!(uniform_type_match(1, code, ty, dim), None);
        assert!(uniform_type_match(1, code + 1000, ty, dim).is_some());
    }
}

#[test]
fn mismatching_types_name_what_was_requested() {
    let complaint = |ty, dim| uniform_type_match(1, 0, ty, dim).unwrap();
    assert_eq!(complaint(Type::Integral, Dim::Dim1), "requested int doesn't match");
    assert_eq!(complaint(Type::Integral, Dim::Dim2), "requested ivec2 doesn't match");
    assert_eq!(complaint(Type::Integral, Dim::Dim3), "requested ivec3 doesn't match");
    assert_eq!(complaint(Type::Integral, Dim::Dim4), "requested ivec4 doesn't match");
    assert_eq!(complaint(Type::Unsigned, Dim::Dim1), "requested uint doesn't match");
    assert_eq!(complaint(Type::Unsigned, Dim::Dim2), "requested uvec2 doesn't match");
    assert_eq!(complaint(Type::Unsigned, Dim::Dim3), "requested uvec3 doesn't match");
    assert_eq!(complaint(Type::Unsigned, Dim::Dim4), "requested uvec4 doesn't match");
    assert_eq!(complaint(Type::Floating, Dim::Dim1), "requested float doesn't match");
    assert_eq!(complaint(Type::Floating, Dim::Dim2), "requested vec2 doesn't match");
    assert_eq!(complaint(Type::Floating, Dim::Dim3), "requested vec3 doesn't match");
    assert_eq!(complaint(Type::Floating, Dim::Dim4), "requested vec4 doesn't match");
    assert_eq!(complaint(Type::Floating, Dim::Dim22), "requested mat2 doesn't match");
    assert_eq!(complaint(Type::Floating, Dim::Dim33), "requested mat3 doesn't match");
    assert_eq!(complaint(Type::Floating, Dim::Dim44), "requested mat4 doesn't match");
    assert_eq!(complaint(Type::Boolean, Dim::Dim1), "requested bool doesn't match");
    assert_eq!(complaint(Type::Boolean, Dim::Dim2), "requested bvec2 doesn't match");
    assert_eq!(complaint(Type::Boolean, Dim::Dim3), "requested bvec3 doesn't match");
    assert_eq!(complaint(Type::Boolean, Dim::Dim4), "requested bvec4 doesn't match");
}

#[test]
fn arrays_and_unchecked_shapes_are_not_type_checked() {
    assert_eq!(uniform_type_match(2, gl::FLOAT, Type::Integral, Dim::Dim1), None);
    assert_eq!(uniform_type_match(0, gl::FLOAT, Type::Integral, Dim::Dim1), None);
    assert_eq!(uniform_type_match(1, gl::FLOAT, Type::Integral, Dim::Dim22), None);
    assert_eq!(uniform_type_match(1, gl::FLOAT, Type::Boolean, Dim::Dim44), None);
    assert_eq!(uniform_type_match(1, gl::FLOAT, Type::TextureUnit, Dim::Dim2), None);
    assert_eq!(uniform_type_match(1, gl::FLOAT, Type::BufferBinding, Dim::Dim1), None);
    assert_eq!(uniform_type_match(1, gl::FLOAT, Type::Floating, Dim::Cubemap), None);
}

#[test]
fn active_uniform_of_the_right_type_is_located_without_warning() {
    assert_eq!(
        get_uniform_location("color", Type::Floating, Dim::Dim4, &reflected(3, gl::FLOAT_VEC4)),
        (Location::Uniform(3), None)
    );
}

#[test]
fn inactive_uniform_is_reported_and_not_type_checked() {
    assert_eq!(
        get_uniform_location("color", Type::Floating, Dim::Dim4, &reflected(-1, gl::INT)),
        (Location::Uniform(-1), Some(UniformWarning::Inactive(String::from("color"))))
    );
}

#[test]
fn mismatching_uniform_is_located_and_reported() {
    assert_eq!(
        get_uniform_location("color", Type::Floating, Dim::Dim4, &reflected(3, gl::FLOAT_VEC3)),
        (
            Location::Uniform(3),
            Some(UniformWarning::TypeMismatch(
                String::from("color"),
                String::from("requested vec4 doesn't match")
            ))
        )
    );
}

#[test]
fn uniform_blocks_are_found_by_block_index() {
    let report = Reflected { location: -1, block: 2, size: 1, typ: 0 };
    assert_eq!(
        get_uniform_location("lights", Type::BufferBinding, Dim::Dim1, &report),
        (Location::UniformBlock(2), None)
    );
    let report = Reflected { location: 6, block: gl::INVALID_INDEX, size: 1, typ: 0 };
    assert_eq!(
        get_uniform_location("lights", Type::BufferBinding, Dim::Dim1, &report),
        (
            Location::UniformBlock(gl::INVALID_INDEX),
            Some(UniformWarning::Inactive(String::from("lights")))
        )
    );
}

#[test]
fn linking_with_an_absent_uniform_succeeds_with_one_warning() {
    let sems = [sem(0, "unused", Type::Floating, Dim::Dim1)];
    let (program, warnings) = link(&sems, &[reflected(-1, 0)]);
    assert_eq!(program.id, 12);
    assert_eq!(warnings, vec![UniformWarning::Inactive(String::from("unused"))]);
    assert_eq!(program.uniform_location(0), Some(-1));
}

#[test]
fn linking_resolves_every_semantic_and_gathers_the_warnings_in_order() {
    let sems = [
        sem(0, "time", Type::Floating, Dim::Dim1),
        sem(1, "gone", Type::Integral, Dim::Dim2),
        sem(0, "lights", Type::BufferBinding, Dim::Dim1),
        sem(2, "tint", Type::Floating, Dim::Dim3),
        sem(3, "flags", Type::Boolean, Dim::Dim2),
    ];
    let reports = [
        reflected(4, gl::FLOAT),
        reflected(-1, gl::INT_VEC2),
        Reflected { location: -1, block: 1, size: 1, typ: 0 },
        reflected(7, gl::FLOAT_VEC4),
        Reflected { location: 9, block: 0, size: 3, typ: gl::INT },
    ];
    let (program, warnings) = link(&sems, &reports);
    assert_eq!(
        warnings,
        vec![
            UniformWarning::Inactive(String::from("gone")),
            UniformWarning::TypeMismatch(
                String::from("tint"),
                String::from("requested vec3 doesn't match")
            ),
        ]
    );
    assert_eq!(program.uni_sem_map.len(), 4);
    assert_eq!(program.uniform_location(0), Some(4));
    assert_eq!(program.uniform_location(1), Some(-1));
    assert_eq!(program.uniform_location(2), Some(7));
    assert_eq!(program.uniform_location(3), Some(9));
    assert_eq!(program.uniform_location(4), None);
    assert_eq!(program.ubo_sem_map.len(), 1);
    assert_eq!(program.block_index(0), Some(1));
    assert_eq!(program.block_index(1), None);
}

#[test]
fn later_semantic_of_the_same_index_wins() {
    let sems = [sem(0, "a", Type::Floating, Dim::Dim1), sem(0, "b", Type::Floating, Dim::Dim1)];
    let (program, warnings) = link(&sems, &[reflected(4, gl::FLOAT), reflected(5, gl::FLOAT)]);
    assert_eq!(warnings, vec![]);
    assert_eq!(program.uniform_location(0), Some(5));
}

#[test]
fn semantic_past_the_declared_count_is_not_declared() {
    let sems = [sem(5, "far", Type::Floating, Dim::Dim1)];
    let (program, _) = link(&sems, &[reflected(4, gl::FLOAT)]);
    assert_eq!(program.uniform_location(5), None);
    assert_eq!(program.uniform_location(0), None);
}

#[test]
fn failed_link_deletes_the_program_and_carries_the_log() {
    let sems = [sem(0, "time", Type::Floating, Dim::Dim1)];
    for status in [gl::FALSE as i32, 2, -1] {
        let (calls, outcome) = new_program(12, status, &sems, &[], String::from("no main"));
        assert_eq!(calls, vec![Call::DeleteProgram { program: 12 }]);
        assert_eq!(outcome, Err(ProgramError::LinkFailed(String::from("no main"))));
    }
}

#[test]
fn program_is_used_for_updates_and_deleted_when_freed() {
    let (program, _) = link(&[], &[]);
    assert_eq!(free_program(&program), vec![Call::DeleteProgram { program: 12 }]);
    assert_eq!(
        update_uniforms(&program),
        (vec![Call::UseProgram { program: 12 }], vec![Call::UseProgram { program: 0 }])
    );
}

fn two_uniforms_and_a_block() -> GLProgram {
    let sems = [
        sem(0, "a", Type::Floating, Dim::Dim1),
        sem(1, "b", Type::Integral, Dim::Dim1),
        sem(0, "block", Type::BufferBinding, Dim::Dim1),
    ];
    let reports = [
        reflected(4, gl::FLOAT),
        reflected(6, gl::INT),
        Reflected { location: -1, block: 3, size: 1, typ: 0 },
    ];
    link(&sems, &reports).0
}

#[test]
fn scalar_updates_carry_their_value() {
    let program = two_uniforms_and_a_block();
    assert_eq!(update1_i32(&program, 1, -5), Call::Uniform1i { location: 6, value: -5 });
    assert_eq!(update1_u32(&program, 1, 5), Call::Uniform1ui { location: 6, word: 5 });
    assert_eq!(
        update1_f32(&program, 0, 0.5f32.to_bits()),
        Call::Uniform1f { location: 4, bits: 0x3F00_0000 }
    );
}

#[test]
fn booleans_are_sent_as_unsigned_integers() {
    let program = two_uniforms_and_a_block();
    assert_eq!(update1_bool(&program, 0, true), Call::Uniform1ui { location: 4, word: 1 });
    assert_eq!(update1_bool(&program, 0, false), Call::Uniform1ui { location: 4, word: 0 });
    assert_eq!(bools_as_u32(&[true, false, false, true]), vec![1, 0, 0, 1]);
    assert_eq!(bools_as_u32(&[]), Vec::<u32>::new());
    assert_eq!(
        update_bool(&program, 0, &[true, false, true]),
        (Call::UniformUiv { location: 4, dim: 3, count: 1 }, vec![1, 0, 1])
    );
    assert_eq!(
        update_slice_bool(&program, 1, 2, &[true, false, false, false, true, true]),
        (Call::UniformUiv { location: 6, dim: 2, count: 3 }, vec![1, 0, 0, 0, 1, 1])
    );
    assert_eq!(
        update_slice_bool(&program, 1, 1, &[]),
        (Call::UniformUiv { location: 6, dim: 1, count: 0 }, vec![])
    );
}

#[test]
fn vector_updates_say_shape_and_count() {
    let program = two_uniforms_and_a_block();
    assert_eq!(update_i32(&program, 0, 2), Call::UniformIv { location: 4, dim: 2, count: 1 });
    assert_eq!(update_u32(&program, 0, 3), Call::UniformUiv { location: 4, dim: 3, count: 1 });
    assert_eq!(update_f32(&program, 0, 4), Call::UniformFv { location: 4, dim: 4, count: 1 });
    assert_eq!(
        update_slice_i32(&program, 1, 1, 9),
        Call::UniformIv { location: 6, dim: 1, count: 9 }
    );
    assert_eq!(
        update_slice_u32(&program, 1, 4, 2),
        Call::UniformUiv { location: 6, dim: 4, count: 2 }
    );
    assert_eq!(
        update_slice_f32(&program, 1, 3, 0),
        Call::UniformFv { location: 6, dim: 3, count: 0 }
    );
}

#[test]
fn a_matrix_is_an_array_of_one() {
    let program = two_uniforms_and_a_block();
    for dim in [2, 3, 4] {
        assert_eq!(
            update_matrix_f32(&program, 0, dim),
            Call::UniformMatrixFv { location: 4, dim, count: 1, transpose: false }
        );
        assert_eq!(
            update_matrix_f32(&program, 0, dim),
            update_matrix_slice_f32(&program, 0, dim, 1)
        );
    }
    assert_eq!(
        update_matrix_slice_f32(&program, 1, 4, 5),
        Call::UniformMatrixFv { location: 6, dim: 4, count: 5, transpose: false }
    );
}

#[test]
fn texture_units_and_buffer_bindings_are_rebound_by_number() {
    let program = two_uniforms_and_a_block();
    assert_eq!(update_texture_unit(&program, 1, 3), Call::Uniform1i { location: 6, value: 3 });
    assert_eq!(
        update_buffer_binding(&program, 0, 8),
        Call::UniformBlockBinding { program: 12, block: 3, binding: 8 }
    );
}

#[test]
fn only_the_true_status_says_linked() {
    assert!(linked(gl::TRUE as i32));
    assert!(!linked(gl::FALSE as i32));
    assert!(!linked(2));
    assert!(!linked(-1));
}

#[test]
fn only_uniform_blocks_are_located_by_block_index() {
    assert!(located_by_block(Type::BufferBinding));
    for ty in [Type::Integral, Type::Unsigned, Type::Floating, Type::Boolean, Type::TextureUnit] {
        assert!(!located_by_block(ty));
    }
}

#[test]
fn activity_goes_by_the_report_that_locates_the_uniform() {
    let nowhere = Reflected { location: -1, block: gl::INVALID_INDEX, size: 0, typ: 0 };
    let located = Reflected { location: 0, block: gl::INVALID_INDEX, size: 0, typ: 0 };
    let in_block = Reflected { location: -1, block: 0, size: 0, typ: 0 };
    assert!(!is_active(Type::Floating, &nowhere));
    assert!(!is_active(Type::BufferBinding, &nowhere));
    assert!(is_active(Type::Floating, &located));
    assert!(!is_active(Type::BufferBinding, &located));
    assert!(!is_active(Type::TextureUnit, &in_block));
    assert!(is_active(Type::BufferBinding, &in_block));
}
