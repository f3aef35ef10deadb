use regl::call::GlCall;
use regl::error::ReglError;
use regl::program::uniform::{
    check_uniform_element_count, uniform_value_f32, uniform_value_i32, uniform_value_matrix,
    uniform_value_u32,
};
use regl::program::{ShaderAttributeType, UniformType};

#[test]
fn three_component_vector_with_count_two_takes_six_floats() {
    let mut calls = Vec::new();
    assert_eq!(uniform_value_f32(4, UniformType::FloatVec3, 2, 6, &mut calls), Ok(()));
    assert_eq!(calls, vec![GlCall::Uniform3fv { location: 4, count: 2 }]);
}

#[test]
fn three_component_vector_with_count_two_refuses_five_floats() {
    let mut calls = Vec::new();
    assert_eq!(
        uniform_value_f32(4, UniformType::FloatVec3, 2, 5, &mut calls),
        Err(ReglError::InvalidUniformValueCount)
    );
    assert!(calls.is_empty());
}

#[test]
fn three_component_vector_with_count_two_refuses_seven_floats() {
    let mut calls = Vec::new();
    assert_eq!(
        uniform_value_f32(4, UniformType::FloatVec3, 2, 7, &mut calls),
        Err(ReglError::InvalidUniformValueCount)
    );
    assert!(calls.is_empty());
}

#[test]
fn float_setter_picks_the_call_by_width() {
    let mut calls = Vec::new();
    assert_eq!(uniform_value_f32(0, UniformType::Float, 3, 3, &mut calls), Ok(()));
    assert_eq!(uniform_value_f32(1, UniformType::FloatVec2, 1, 2, &mut calls), Ok(()));
    assert_eq!(uniform_value_f32(2, UniformType::BoolVec3, 1, 3, &mut calls), Ok(()));
    assert_eq!(uniform_value_f32(3, UniformType::FloatVec4, 2, 8, &mut calls), Ok(()));
    assert_eq!(
        calls,
        vec![
            GlCall::Uniform1fv { location: 0, count: 3 },
            GlCall::Uniform2fv { location: 1, count: 1 },
            GlCall::Uniform3fv { location: 2, count: 1 },
            GlCall::Uniform4fv { location: 3, count: 2 },
        ]
    );
}

#[test]
fn float_setter_sets_a_matrix_without_transposing() {
    let mut calls = Vec::new();
    assert_eq!(uniform_value_f32(9, UniformType::FloatMat2x3, 2, 12, &mut calls), Ok(()));
    assert_eq!(
        calls,
        vec![GlCall::UniformMatrix2x3fv { location: 9, count: 2, transpose: gl::FALSE }]
    );
    assert_eq!(
        uniform_value_f32(9, UniformType::FloatMat2x3, 2, 11, &mut calls),
        Err(ReglError::InvalidUniformValueCount)
    );
}

#[test]
fn float_setter_refuses_integer_and_sampler_types() {
    let mut calls = Vec::new();
    assert_eq!(
        uniform_value_f32(0, UniformType::IntVec2, 1, 2, &mut calls),
        Err(ReglError::UniformTypeMismatch)
    );
    assert_eq!(
        uniform_value_f32(0, UniformType::Sampler2d, 1, 1, &mut calls),
        Err(ReglError::UniformTypeMismatch)
    );
    assert_eq!(
        uniform_value_f32(0, UniformType::UnrecognizedType(77), 1, 1, &mut calls),
        Err(ReglError::UniformTypeMismatch)
    );
    assert!(calls.is_empty());
}

#[test]
fn signed_setter_sets_integers_booleans_and_samplers() {
    let mut calls = Vec::new();
    assert_eq!(uniform_value_i32(1, UniformType::Int, 2, &[5, 6], &mut calls), Ok(()));
    assert_eq!(uniform_value_i32(2, UniformType::IntVec2, 1, &[5, 6], &mut calls), Ok(()));
    assert_eq!(uniform_value_i32(3, UniformType::BoolVec3, 1, &[1, 0, 1], &mut calls), Ok(()));
    assert_eq!(uniform_value_i32(4, UniformType::IntVec4, 1, &[1, 2, 3, 4], &mut calls), Ok(()));
    assert_eq!(uniform_value_i32(5, UniformType::Sampler2d, 1, &[0], &mut calls), Ok(()));
    assert_eq!(
        uniform_value_i32(6, UniformType::UnsignedIntSampler2dRect, 2, &[0, 1], &mut calls),
        Ok(())
    );
    assert_eq!(
        calls,
        vec![
            GlCall::Uniform1iv { location: 1, count: 2 },
            GlCall::Uniform2iv { location: 2, count: 1 },
            GlCall::Uniform3iv { location: 3, count: 1 },
            GlCall::Uniform4iv { location: 4, count: 1 },
            GlCall::Uniform1iv { location: 5, count: 1 },
            GlCall::Uniform1iv { location: 6, count: 2 },
        ]
    );
}

#[test]
fn signed_setter_refuses_other_types_and_wrong_counts() {
    let mut calls = Vec::new();
    assert_eq!(
        uniform_value_i32(1, UniformType::FloatVec2, 1, &[5, 6], &mut calls),
        Err(ReglError::UniformTypeMismatch)
    );
    assert_eq!(
        uniform_value_i32(1, UniformType::UnsignedInt, 1, &[5], &mut calls),
        Err(ReglError::UniformTypeMismatch)
    );
    assert_eq!(
        uniform_value_i32(1, UniformType::IntVec2, 2, &[5, 6, 7], &mut calls),
        Err(ReglError::InvalidUniformValueCount)
    );
    assert_eq!(
        uniform_value_i32(1, UniformType::Sampler3d, 1, &[], &mut calls),
        Err(ReglError::InvalidUniformValueCount)
    );
    assert!(calls.is_empty());
}

#[test]
fn unsigned_setter_sets_unsigned_integers_and_booleans() {
    let mut calls = Vec::new();
    assert_eq!(uniform_value_u32(1, UniformType::UnsignedInt, 1, &[5], &mut calls), Ok(()));
    assert_eq!(uniform_value_u32(2, UniformType::UnsignedIntVec2, 1, &[5, 6], &mut calls), Ok(()));
    assert_eq!(uniform_value_u32(3, UniformType::UnsignedIntVec3, 1, &[5, 6, 7], &mut calls), Ok(()));
    assert_eq!(uniform_value_u32(4, UniformType::BoolVec4, 1, &[1, 1, 0, 0], &mut calls), Ok(()));
    assert_eq!(
        calls,
        vec![
            GlCall::Uniform1uiv { location: 1, count: 1 },
            GlCall::Uniform2uiv { location: 2, count: 1 },
            GlCall::Uniform3uiv { location: 3, count: 1 },
            GlCall::Uniform4uiv { location: 4, count: 1 },
        ]
    );
    assert_eq!(
        uniform_value_u32(1, UniformType::Int, 1, &[5], &mut calls),
        Err(ReglError::UniformTypeMismatch)
    );
    assert_eq!(
        uniform_value_u32(1, UniformType::Sampler2d, 1, &[5], &mut calls),
        Err(ReglError::UniformTypeMismatch)
    );
    assert_eq!(
        uniform_value_u32(1, UniformType::UnsignedIntVec2, 1, &[5], &mut calls),
        Err(ReglError::InvalidUniformValueCount)
    );
    assert_eq!(calls.len(), 4);
}

#[test]
fn matrix_setter_picks_the_call_by_dimensions() {
    let cases = [
        (UniformType::FloatMat2, 4, GlCall::UniformMatrix2fv { location: 1, count: 1, transpose: gl::TRUE }),
        (UniformType::FloatMat3, 9, GlCall::UniformMatrix3fv { location: 1, count: 1, transpose: gl::TRUE }),
        (UniformType::FloatMat4, 16, GlCall::UniformMatrix4fv { location: 1, count: 1, transpose: gl::TRUE }),
        (UniformType::FloatMat2x3, 6, GlCall::UniformMatrix2x3fv { location: 1, count: 1, transpose: gl::TRUE }),
        (UniformType::FloatMat2x4, 8, GlCall::UniformMatrix2x4fv { location: 1, count: 1, transpose: gl::TRUE }),
        (UniformType::FloatMat3x2, 6, GlCall::UniformMatrix3x2fv { location: 1, count: 1, transpose: gl::TRUE }),
        (UniformType::FloatMat3x4, 12, GlCall::UniformMatrix3x4fv { location: 1, count: 1, transpose: gl::TRUE }),
        (UniformType::FloatMat4x2, 8, GlCall::UniformMatrix4x2fv { location: 1, count: 1, transpose: gl::TRUE }),
        (UniformType::FloatMat4x3, 12, GlCall::UniformMatrix4x3fv { location: 1, count: 1, transpose: gl::TRUE }),
    ];
    for (uniform_type, values, call) in cases {
        let mut calls = Vec::new();
        assert_eq!(uniform_value_matrix(1, uniform_type, 1, values, true, &mut calls), Ok(()));
        assert_eq!(calls, vec![call]);
        let mut none = Vec::new();
        assert_eq!(
            uniform_value_matrix(1, uniform_type, 1, values + 1, true, &mut none),
            Err(ReglError::InvalidUniformValueCount)
        );
        assert!(none.is_empty());
    }
}

#[test]
fn matrix_setter_refuses_what_is_no_matrix() {
    let mut calls = Vec::new();
    assert_eq!(
        uniform_value_matrix(1, UniformType::FloatVec4, 1, 4, false, &mut calls),
        Err(ReglError::UniformTypeMismatch)
    );
    assert!(calls.is_empty());
}

#[test]
fn a_count_of_zero_takes_no_values() {
    let mut calls = Vec::new();
    assert_eq!(uniform_value_f32(1, UniformType::FloatVec3, 0, 0, &mut calls), Ok(()));
    assert_eq!(calls, vec![GlCall::Uniform3fv { location: 1, count: 0 }]);
}

#[test]
fn the_largest_count_does_not_overflow_the_check() {
    assert_eq!(
        check_uniform_element_count(16, u32::MAX, 5),
        Err(ReglError::InvalidUniformValueCount)
    );
    assert_eq!(check_uniform_element_count(4, 3, 12), Ok(()));
    assert_eq!(check_uniform_element_count(4, 3, 11), Err(ReglError::InvalidUniformValueCount));
}

#[test]
fn uniform_types_are_read_from_the_codes_of_the_bindings() {
    assert_eq!(UniformType::from(gl::FLOAT), UniformType::Float);
    assert_eq!(UniformType::from(gl::FLOAT_VEC3), UniformType::FloatVec3);
    assert_eq!(UniformType::from(gl::INT_VEC4), UniformType::IntVec4);
    assert_eq!(UniformType::from(gl::UNSIGNED_INT_VEC2), UniformType::UnsignedIntVec2);
    assert_eq!(UniformType::from(gl::BOOL), UniformType::Bool);
    assert_eq!(UniformType::from(gl::FLOAT_MAT3x4), UniformType::FloatMat3x4);
    assert_eq!(UniformType::from(gl::FLOAT_MAT4x3), UniformType::FloatMat4x3);
    assert_eq!(UniformType::from(gl::SAMPLER_2D), UniformType::Sampler2d);
    assert_eq!(UniformType::from(gl::SAMPLER_CUBE_SHADOW), UniformType::SamplerCubeShadow);
    assert_eq!(
        UniformType::from(gl::INT_SAMPLER_2D_MULTISAMPLE_ARRAY),
        UniformType::IntSampler2dMultisampleArray
    );
    assert_eq!(
        UniformType::from(gl::UNSIGNED_INT_SAMPLER_2D_RECT),
        UniformType::UnsignedIntSampler2dRect
    );
    assert_eq!(UniformType::from(gl::TRIANGLES), UniformType::UnrecognizedType(gl::TRIANGLES));
    assert_eq!(UniformType::from(0xFFFF_FFFF), UniformType::UnrecognizedType(0xFFFF_FFFF));
}

#[test]
fn attribute_types_are_read_from_the_codes_of_the_bindings() {
    assert_eq!(ShaderAttributeType::from(gl::FLOAT), ShaderAttributeType::Float);
    assert_eq!(ShaderAttributeType::from(gl::FLOAT_VEC4), ShaderAttributeType::FloatVec4);
    assert_eq!(ShaderAttributeType::from(gl::FLOAT_MAT2x4), ShaderAttributeType::FloatMat2x4);
    assert_eq!(ShaderAttributeType::from(gl::INT_VEC3), ShaderAttributeType::IntVec3);
    assert_eq!(
        ShaderAttributeType::from(gl::UNSIGNED_INT_VEC4),
        ShaderAttributeType::UnsignedIntVec4
    );
    assert_eq!(
        ShaderAttributeType::from(gl::BOOL),
        ShaderAttributeType::UnrecognizedType(gl::BOOL)
    );
    assert_eq!(
        ShaderAttributeType::from(gl::SAMPLER_2D),
        ShaderAttributeType::UnrecognizedType(gl::SAMPLER_2D)
    );
}
