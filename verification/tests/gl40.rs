use luminance_gl::call::Call;
use luminance_gl::gl40::shader::program::{
    free_program, link_program, linked, map_uniform, new_program, update_uniforms, ProgramError,
};

#[test]
fn gl40_program_links_its_stages() {
    assert_eq!(
        link_program(2, Some((5, 6)), 3, None, 4),
        vec![
            Call::AttachShader { program: 2, shader: 5 },
            Call::AttachShader { program: 2, shader: 6 },
            Call::AttachShader { program: 2, shader: 3 },
            Call::AttachShader { program: 2, shader: 4 },
            Call::LinkProgram { program: 2 },
        ]
    );
}

#[test]
fn gl40_linked_program_is_its_handle() {
    assert_eq!(new_program(2, gl::TRUE, String::new()), (vec![], Ok(2)));
}

#[test]
fn gl40_failed_link_deletes_the_program_and_carries_the_log() {
    assert_eq!(
        new_program(2, gl::FALSE, String::from("undefined symbol")),
        (
            vec![Call::DeleteProgram { program: 2 }],
            Err(ProgramError::LinkFailed(String::from("undefined symbol")))
        )
    );
    assert_eq!(
        new_program(2, 9, String::from("x")),
        (vec![Call::DeleteProgram { program: 2 }], Err(ProgramError::LinkFailed(String::from("x"))))
    );
}

#[test]
fn gl40_uniforms_are_mapped_by_location() {
    assert_eq!(map_uniform(0, String::from("time")), Ok(0));
    assert_eq!(map_uniform(17, String::from("time")), Ok(17));
    assert_eq!(
        map_uniform(-1, String::from("time")),
        Err(ProgramError::InactiveUniform(String::from("time")))
    );
}

#[test]
fn gl40_program_is_current_during_updates_only() {
    assert_eq!(
        update_uniforms(2),
        (vec![Call::UseProgram { program: 2 }], vec![Call::UseProgram { program: 0 }])
    );
    assert_eq!(free_program(2), vec![Call::DeleteProgram { program: 2 }]);
}

#[test]
fn gl40_only_the_true_status_says_linked() {
    assert!(linked(gl::TRUE));
    assert!(!linked(gl::FALSE));
    assert!(!linked(255));
}
