use luminance_gl::error::{debug_gl, decimal_text};

#[test]
fn known_errors_are_named() {
    assert_eq!(debug_gl(gl::NO_ERROR), "no error");
    assert_eq!(debug_gl(gl::INVALID_ENUM), "invalid enum");
    assert_eq!(debug_gl(gl::INVALID_VALUE), "invalid value");
    assert_eq!(debug_gl(gl::INVALID_OPERATION), "invalid operation");
    assert_eq!(debug_gl(gl::INVALID_FRAMEBUFFER_OPERATION), "invalid frameuffer operation");
    assert_eq!(debug_gl(gl::OUT_OF_MEMORY), "out of memory");
}

#[test]
fn unknown_errors_are_numbered() {
    assert_eq!(debug_gl(1), "unknown error: 1");
    assert_eq!(debug_gl(0x0503), "unknown error: 1283");
    assert_eq!(debug_gl(u32::MAX), "unknown error: 4294967295");
}

#[test]
fn decimal_text_is_what_formatting_gives() {
    for n in [0u32, 1, 9, 10, 11, 99, 100, 101, 1000, 65535, 65536, 1_000_000_007, u32::MAX] {
        assert_eq!(decimal_text(n), format!("{}", n));
    }
}
