use luminance_gl::call::Call;
use luminance_gl::gl33::shader::uniform::{
    bools_as_i32, update1_bool, update1_f32, update1_i32, update1_u32, update_bool, update_f32,
    update_i32, update_matrix_f32, update_matrix_slice_f32, update_slice_bool, update_slice_f32,
    update_slice_i32, update_slice_u32, update_textures, update_u32,
};
use luminance_gl::gl33::texture::GLTexture;

#[test]
fn scalars_by_location() {
    assert_eq!(update1_i32(3, -9), Call::Uniform1i { location: 3, value: -9 });
    assert_eq!(update1_u32(3, 9), Call::Uniform1ui { location: 3, word: 9 });
    assert_eq!(update1_f32(3, 1.0f32.to_bits()), Call::Uniform1f { location: 3, bits: 0x3F80_0000 });
}

#[test]
fn booleans_by_location_are_signed_integers() {
    assert_eq!(update1_bool(3, true), Call::Uniform1i { location: 3, value: 1 });
    assert_eq!(update1_bool(3, false), Call::Uniform1i { location: 3, value: 0 });
    assert_eq!(bools_as_i32(&[false, true, true]), vec![0, 1, 1]);
    assert_eq!(
        update_bool(3, &[false, true]),
        (Call::UniformIv { location: 3, dim: 2, count: 1 }, vec![0, 1])
    );
    assert_eq!(
        update_slice_bool(3, 4, &[true, true, false, false, false, true, false, true]),
        (Call::UniformIv { location: 3, dim: 4, count: 2 }, vec![1, 1, 0, 0, 0, 1, 0, 1])
    );
}

#[test]
fn vectors_and_arrays_by_location() {
    assert_eq!(update_i32(3, 4), Call::UniformIv { location: 3, dim: 4, count: 1 });
    assert_eq!(update_u32(3, 2), Call::UniformUiv { location: 3, dim: 2, count: 1 });
    assert_eq!(update_f32(3, 3), Call::UniformFv { location: 3, dim: 3, count: 1 });
    assert_eq!(update_slice_i32(3, 1, 6), Call::UniformIv { location: 3, dim: 1, count: 6 });
    assert_eq!(update_slice_u32(3, 2, 6), Call::UniformUiv { location: 3, dim: 2, count: 6 });
    assert_eq!(update_slice_f32(3, 3, 6), Call::UniformFv { location: 3, dim: 3, count: 6 });
}

#[test]
fn matrices_by_location() {
    assert_eq!(update_matrix_f32(3, 2), Call::UniformMatrixFv { location: 3, dim: 2, count: 1, transpose: false });
    assert_eq!(
        update_matrix_slice_f32(3, 4, 8),
        Call::UniformMatrixFv { location: 3, dim: 4, count: 8, transpose: false }
    );
}

#[test]
fn textures_are_bound_to_consecutive_units() {
    let textures = [
        GLTexture { handle: 10, target: gl::TEXTURE_2D },
        GLTexture { handle: 11, target: gl::TEXTURE_CUBE_MAP },
    ];
    assert_eq!(
        update_textures(3, &textures),
        vec![
            Call::ActiveTexture { unit: gl::TEXTURE0 },
            Call::BindTexture { target: gl::TEXTURE_2D, texture: 10 },
            Call::Uniform1i { location: 3, value: 0 },
            Call::ActiveTexture { unit: gl::TEXTURE0 + 1 },
            Call::BindTexture { target: gl::TEXTURE_CUBE_MAP, texture: 11 },
            Call::Uniform1i { location: 3, value: 1 },
        ]
    );
    assert_eq!(update_textures(3, &[]), vec![]);
}
