//! Uniforms of a shader program: what the hardware reports of them, and the
//! checks on the values that they are set from.

use vstd::prelude::*;
use vstd::std_specs::convert::FromSpecImpl;
use gl::types::{GLboolean, GLenum, GLint, GLsizei};
use crate::call::GlCall;
use crate::error::ReglError;
use crate::glenum::{
    FALSE, TRUE,
};
use crate::glenum::{
    FLOAT, FLOAT_VEC2, FLOAT_VEC3, FLOAT_VEC4, INT, INT_VEC2, INT_VEC3, INT_VEC4,
    UNSIGNED_INT, UNSIGNED_INT_VEC2, UNSIGNED_INT_VEC3, UNSIGNED_INT_VEC4, BOOL, BOOL_VEC2,
    BOOL_VEC3, BOOL_VEC4, FLOAT_MAT2, FLOAT_MAT3, FLOAT_MAT4, FLOAT_MAT2x3, FLOAT_MAT2x4,
    FLOAT_MAT3x2, FLOAT_MAT3x4, FLOAT_MAT4x2, FLOAT_MAT4x3, SAMPLER_1D, SAMPLER_2D,
    SAMPLER_3D, SAMPLER_CUBE, SAMPLER_1D_SHADOW, SAMPLER_2D_SHADOW, SAMPLER_1D_ARRAY,
    SAMPLER_2D_ARRAY, SAMPLER_1D_ARRAY_SHADOW, SAMPLER_2D_ARRAY_SHADOW,
    SAMPLER_2D_MULTISAMPLE, SAMPLER_2D_MULTISAMPLE_ARRAY, SAMPLER_CUBE_SHADOW,
    SAMPLER_BUFFER, SAMPLER_2D_RECT, SAMPLER_2D_RECT_SHADOW, INT_SAMPLER_1D, INT_SAMPLER_2D,
    INT_SAMPLER_3D, INT_SAMPLER_CUBE, INT_SAMPLER_1D_ARRAY, INT_SAMPLER_2D_ARRAY,
    INT_SAMPLER_2D_MULTISAMPLE, INT_SAMPLER_2D_MULTISAMPLE_ARRAY, INT_SAMPLER_BUFFER,
    INT_SAMPLER_2D_RECT, UNSIGNED_INT_SAMPLER_1D, UNSIGNED_INT_SAMPLER_2D,
    UNSIGNED_INT_SAMPLER_3D, UNSIGNED_INT_SAMPLER_CUBE, UNSIGNED_INT_SAMPLER_1D_ARRAY,
    UNSIGNED_INT_SAMPLER_2D_ARRAY, UNSIGNED_INT_SAMPLER_2D_MULTISAMPLE,
    UNSIGNED_INT_SAMPLER_2D_MULTISAMPLE_ARRAY, UNSIGNED_INT_SAMPLER_BUFFER,
    UNSIGNED_INT_SAMPLER_2D_RECT,
};
use crate::ReglResult;

verus! {

/// The data type of a uniform, as the shading language declares it.
#[derive(Debug, Clone, Copy, PartialEq, Eq, Structural)]
pub enum UniformType {
    Float,
    FloatVec2,
    FloatVec3,
    FloatVec4,
    Int,
    IntVec2,
    IntVec3,
    IntVec4,
    UnsignedInt,
    UnsignedIntVec2,
    UnsignedIntVec3,
    UnsignedIntVec4,
    Bool,
    BoolVec2,
    BoolVec3,
    BoolVec4,
    FloatMat2,
    FloatMat3,
    FloatMat4,
    FloatMat2x3,
    FloatMat2x4,
    FloatMat3x2,
    FloatMat3x4,
    FloatMat4x2,
    FloatMat4x3,
    Sampler1d,
    Sampler2d,
    Sampler3d,
    SamplerCube,
    Sampler1dShadow,
    Sampler2dShadow,
    Sampler1dArray,
    Sampler2dArray,
    Sampler1dArrayShadow,
    Sampler2dArrayShadow,
    Sampler2dMultisample,
    Sampler2dMultisampleArray,
    SamplerCubeShadow,
    SamplerBuffer,
    Sampler2dRect,
    Sampler2dRectShadow,
    IntSampler1d,
    IntSampler2d,
    IntSampler3d,
    IntSamplerCube,
    IntSampler1dArray,
    IntSampler2dArray,
    IntSampler2dMultisample,
    IntSampler2dMultisampleArray,
    IntSamplerBuffer,
    IntSampler2dRect,
    UnsignedIntSampler1d,
    UnsignedIntSampler2d,
    UnsignedIntSampler3d,
    UnsignedIntSamplerCube,
    UnsignedIntSampler1dArray,
    UnsignedIntSampler2dArray,
    UnsignedIntSampler2dMultisample,
    UnsignedIntSampler2dMultisampleArray,
    UnsignedIntSamplerBuffer,
    UnsignedIntSampler2dRect,
    /// A type code that the library has no name for.
    UnrecognizedType(u32),
}

impl From<GLenum> for UniformType {
    /// Reads the type code that the hardware reports for a uniform.
    fn from(gl_type: GLenum) -> (uniform_type: UniformType) {
        match gl_type {
            FLOAT => UniformType::Float,
            FLOAT_VEC2 => UniformType::FloatVec2,
            FLOAT_VEC3 => UniformType::FloatVec3,
            FLOAT_VEC4 => UniformType::FloatVec4,
            INT => UniformType::Int,
            INT_VEC2 => UniformType::IntVec2,
            INT_VEC3 => UniformType::IntVec3,
            INT_VEC4 => UniformType::IntVec4,
            UNSIGNED_INT => UniformType::UnsignedInt,
            UNSIGNED_INT_VEC2 => UniformType::UnsignedIntVec2,
            UNSIGNED_INT_VEC3 => UniformType::UnsignedIntVec3,
            UNSIGNED_INT_VEC4 => UniformType::UnsignedIntVec4,
            BOOL => UniformType::Bool,
            BOOL_VEC2 => UniformType::BoolVec2,
            BOOL_VEC3 => UniformType::BoolVec3,
            BOOL_VEC4 => UniformType::BoolVec4,
            FLOAT_MAT2 => UniformType::FloatMat2,
            FLOAT_MAT3 => UniformType::FloatMat3,
            FLOAT_MAT4 => UniformType::FloatMat4,
            FLOAT_MAT2x3 => UniformType::FloatMat2x3,
            FLOAT_MAT2x4 => UniformType::FloatMat2x4,
            FLOAT_MAT3x2 => UniformType::FloatMat3x2,
            FLOAT_MAT3x4 => UniformType::FloatMat3x4,
            FLOAT_MAT4x2 => UniformType::FloatMat4x2,
            FLOAT_MAT4x3 => UniformType::FloatMat4x3,
            SAMPLER_1D => UniformType::Sampler1d,
            SAMPLER_2D => UniformType::Sampler2d,
            SAMPLER_3D => UniformType::Sampler3d,
            SAMPLER_CUBE => UniformType::SamplerCube,
            SAMPLER_1D_SHADOW => UniformType::Sampler1dShadow,
            SAMPLER_2D_SHADOW => UniformType::Sampler2dShadow,
            SAMPLER_1D_ARRAY => UniformType::Sampler1dArray,
            SAMPLER_2D_ARRAY => UniformType::Sampler2dArray,
            SAMPLER_1D_ARRAY_SHADOW => UniformType::Sampler1dArrayShadow,
            SAMPLER_2D_ARRAY_SHADOW => UniformType::Sampler2dArrayShadow,
            SAMPLER_2D_MULTISAMPLE => UniformType::Sampler2dMultisample,
            SAMPLER_2D_MULTISAMPLE_ARRAY => UniformType::Sampler2dMultisampleArray,
            SAMPLER_CUBE_SHADOW => UniformType::SamplerCubeShadow,
            SAMPLER_BUFFER => UniformType::SamplerBuffer,
            SAMPLER_2D_RECT => UniformType::Sampler2dRect,
            SAMPLER_2D_RECT_SHADOW => UniformType::Sampler2dRectShadow,
            INT_SAMPLER_1D => UniformType::IntSampler1d,
            INT_SAMPLER_2D => UniformType::IntSampler2d,
            INT_SAMPLER_3D => UniformType::IntSampler3d,
            INT_SAMPLER_CUBE => UniformType::IntSamplerCube,
            INT_SAMPLER_1D_ARRAY => UniformType::IntSampler1dArray,
            INT_SAMPLER_2D_ARRAY => UniformType::IntSampler2dArray,
            INT_SAMPLER_2D_MULTISAMPLE => UniformType::IntSampler2dMultisample,
            INT_SAMPLER_2D_MULTISAMPLE_ARRAY => UniformType::IntSampler2dMultisampleArray,
            INT_SAMPLER_BUFFER => UniformType::IntSamplerBuffer,
            INT_SAMPLER_2D_RECT => UniformType::IntSampler2dRect,
            UNSIGNED_INT_SAMPLER_1D => UniformType::UnsignedIntSampler1d,
            UNSIGNED_INT_SAMPLER_2D => UniformType::UnsignedIntSampler2d,
            UNSIGNED_INT_SAMPLER_3D => UniformType::UnsignedIntSampler3d,
            UNSIGNED_INT_SAMPLER_CUBE => UniformType::UnsignedIntSamplerCube,
            UNSIGNED_INT_SAMPLER_1D_ARRAY => UniformType::UnsignedIntSampler1dArray,
            UNSIGNED_INT_SAMPLER_2D_ARRAY => UniformType::UnsignedIntSampler2dArray,
            UNSIGNED_INT_SAMPLER_2D_MULTISAMPLE => UniformType::UnsignedIntSampler2dMultisample,
            UNSIGNED_INT_SAMPLER_2D_MULTISAMPLE_ARRAY => UniformType::UnsignedIntSampler2dMultisampleArray,
            UNSIGNED_INT_SAMPLER_BUFFER => UniformType::UnsignedIntSamplerBuffer,
            UNSIGNED_INT_SAMPLER_2D_RECT => UniformType::UnsignedIntSampler2dRect,
            other => UniformType::UnrecognizedType(other),
        }
    }
}

impl FromSpecImpl<GLenum> for UniformType {
    open spec fn obeys_from_spec() -> bool {
        true
    }

    open spec fn from_spec(gl_type: GLenum) -> UniformType {
        UniformType::of_code(gl_type)
    }
}

impl UniformType {
    /// The type that the hardware's code `gl_type` stands for.
    pub open spec fn of_code(gl_type: GLenum) -> UniformType {
        if gl_type == FLOAT {
            UniformType::Float
        } else if gl_type == FLOAT_VEC2 {
            UniformType::FloatVec2
        } else if gl_type == FLOAT_VEC3 {
            UniformType::FloatVec3
        } else if gl_type == FLOAT_VEC4 {
            UniformType::FloatVec4
        } else if gl_type == INT {
            UniformType::Int
        } else if gl_type == INT_VEC2 {
            UniformType::IntVec2
        } else if gl_type == INT_VEC3 {
            UniformType::IntVec3
        } else if gl_type == INT_VEC4 {
            UniformType::IntVec4
        } else if gl_type == UNSIGNED_INT {
            UniformType::UnsignedInt
        } else if gl_type == UNSIGNED_INT_VEC2 {
            UniformType::UnsignedIntVec2
        } else if gl_type == UNSIGNED_INT_VEC3 {
            UniformType::UnsignedIntVec3
        } else if gl_type == UNSIGNED_INT_VEC4 {
            UniformType::UnsignedIntVec4
        } else if gl_type == BOOL {
            UniformType::Bool
        } else if gl_type == BOOL_VEC2 {
            UniformType::BoolVec2
        } else if gl_type == BOOL_VEC3 {
            UniformType::BoolVec3
        } else if gl_type == BOOL_VEC4 {
            UniformType::BoolVec4
        } else if gl_type == FLOAT_MAT2 {
            UniformType::FloatMat2
        } else if gl_type == FLOAT_MAT3 {
            UniformType::FloatMat3
        } else if gl_type == FLOAT_MAT4 {
            UniformType::FloatMat4
        } else if gl_type == FLOAT_MAT2x3 {
            UniformType::FloatMat2x3
        } else if gl_type == FLOAT_MAT2x4 {
            UniformType::FloatMat2x4
        } else if gl_type == FLOAT_MAT3x2 {
            UniformType::FloatMat3x2
        } else if gl_type == FLOAT_MAT3x4 {
            UniformType::FloatMat3x4
        } else if gl_type == FLOAT_MAT4x2 {
            UniformType::FloatMat4x2
        } else if gl_type == FLOAT_MAT4x3 {
            UniformType::FloatMat4x3
        } else if gl_type == SAMPLER_1D {
            UniformType::Sampler1d
        } else if gl_type == SAMPLER_2D {
            UniformType::Sampler2d
        } else if gl_type == SAMPLER_3D {
            UniformType::Sampler3d
        } else if gl_type == SAMPLER_CUBE {
            UniformType::SamplerCube
        } else if gl_type == SAMPLER_1D_SHADOW {
            UniformType::Sampler1dShadow
        } else if gl_type == SAMPLER_2D_SHADOW {
            UniformType::Sampler2dShadow
        } else if gl_type == SAMPLER_1D_ARRAY {
            UniformType::Sampler1dArray
        } else if gl_type == SAMPLER_2D_ARRAY {
            UniformType::Sampler2dArray
        } else if gl_type == SAMPLER_1D_ARRAY_SHADOW {
            UniformType::Sampler1dArrayShadow
        } else if gl_type == SAMPLER_2D_ARRAY_SHADOW {
            UniformType::Sampler2dArrayShadow
        } else if gl_type == SAMPLER_2D_MULTISAMPLE {
            UniformType::Sampler2dMultisample
        } else if gl_type == SAMPLER_2D_MULTISAMPLE_ARRAY {
            UniformType::Sampler2dMultisampleArray
        } else if gl_type == SAMPLER_CUBE_SHADOW {
            UniformType::SamplerCubeShadow
        } else if gl_type == SAMPLER_BUFFER {
            UniformType::SamplerBuffer
        } else if gl_type == SAMPLER_2D_RECT {
            UniformType::Sampler2dRect
        } else if gl_type == SAMPLER_2D_RECT_SHADOW {
            UniformType::Sampler2dRectShadow
        } else if gl_type == INT_SAMPLER_1D {
            UniformType::IntSampler1d
        } else if gl_type == INT_SAMPLER_2D {
            UniformType::IntSampler2d
        } else if gl_type == INT_SAMPLER_3D {
            UniformType::IntSampler3d
        } else if gl_type == INT_SAMPLER_CUBE {
            UniformType::IntSamplerCube
        } else if gl_type == INT_SAMPLER_1D_ARRAY {
            UniformType::IntSampler1dArray
        } else if gl_type == INT_SAMPLER_2D_ARRAY {
            UniformType::IntSampler2dArray
        } else if gl_type == INT_SAMPLER_2D_MULTISAMPLE {
            UniformType::IntSampler2dMultisample
        } else if gl_type == INT_SAMPLER_2D_MULTISAMPLE_ARRAY {
            UniformType::IntSampler2dMultisampleArray
        } else if gl_type == INT_SAMPLER_BUFFER {
            UniformType::IntSamplerBuffer
        } else if gl_type == INT_SAMPLER_2D_RECT {
            UniformType::IntSampler2dRect
        } else if gl_type == UNSIGNED_INT_SAMPLER_1D {
            UniformType::UnsignedIntSampler1d
        } else if gl_type == UNSIGNED_INT_SAMPLER_2D {
            UniformType::UnsignedIntSampler2d
        } else if gl_type == UNSIGNED_INT_SAMPLER_3D {
            UniformType::UnsignedIntSampler3d
        } else if gl_type == UNSIGNED_INT_SAMPLER_CUBE {
            UniformType::UnsignedIntSamplerCube
        } else if gl_type == UNSIGNED_INT_SAMPLER_1D_ARRAY {
            UniformType::UnsignedIntSampler1dArray
        } else if gl_type == UNSIGNED_INT_SAMPLER_2D_ARRAY {
            UniformType::UnsignedIntSampler2dArray
        } else if gl_type == UNSIGNED_INT_SAMPLER_2D_MULTISAMPLE {
            UniformType::UnsignedIntSampler2dMultisample
        } else if gl_type == UNSIGNED_INT_SAMPLER_2D_MULTISAMPLE_ARRAY {
            UniformType::UnsignedIntSampler2dMultisampleArray
        } else if gl_type == UNSIGNED_INT_SAMPLER_BUFFER {
            UniformType::UnsignedIntSamplerBuffer
        } else if gl_type == UNSIGNED_INT_SAMPLER_2D_RECT {
            UniformType::UnsignedIntSampler2dRect
        } else {
            UniformType::UnrecognizedType(gl_type)
        }
    }
}

/// A uniform that stands by itself, outside every interface block.
#[derive(Debug)]
pub struct Uniform {
    /// Name of the uniform.
    pub name: String,
    /// Where the uniform is set. This is not its index in the list of uniforms.
    pub location: i32,
    /// Data type of the uniform.
    pub uniform_type: UniformType,
    /// How many elements of the type the uniform holds: the length of an array.
    pub size: i32,
}

/// An interface block of a program.
#[derive(Debug)]
pub struct InterfaceBlock {
    /// Name of the block.
    pub name: String,
    /// Index of the block, by which the hardware knows it.
    pub index: u32,
    /// How many bytes the block's data takes.
    pub data_size: i32,
    /// The uniforms that the block holds.
    pub uniforms: Vec<BlockUniform>,
}

/// A uniform inside an interface block.
#[derive(Debug)]
pub struct BlockUniform {
    /// Name of the uniform.
    pub name: String,
    /// Data type of the uniform.
    pub uniform_type: UniformType,
    /// How many elements of the type the uniform holds.
    pub size: i32,
    /// How many bytes from the start of the block the uniform lies.
    pub offset: i32,
    /// For an array, the distance in bytes from one element to the next.
    pub array_stride: i32,
    /// For a matrix, the distance in bytes from one column or row to the next.
    pub matrix_stride: i32,
}

/// All uniforms of a program.
#[derive(Debug)]
pub struct UniformInfo {
    /// The uniforms outside interface blocks.
    pub globals: Vec<Uniform>,
    /// The interface blocks, each with its uniforms.
    pub blocks: Vec<InterfaceBlock>,
}

/// One active uniform as the hardware describes it, property by property.
#[derive(Debug)]
pub struct GlUniform {
    pub name: String,
    /// What the hardware answers when asked where the uniform of this name is
    /// set: its location, or -1 for a uniform inside a block, which has none.
    pub location: GLint,
    pub uniform_type: GLint,
    pub size: GLint,
    /// Index of the interface block that holds the uniform; negative where none does.
    pub block_index: GLint,
    pub offset: GLint,
    pub array_stride: GLint,
    pub matrix_stride: GLint,
}

/// The uniform that `uniform` makes of a description.
pub open spec fn spec_uniform(gl_uniform: GlUniform) -> Uniform {
    Uniform {
        name: gl_uniform.name,
        location: gl_uniform.location,
        uniform_type: UniformType::of_code(gl_uniform.uniform_type as GLenum),
        size: gl_uniform.size,
    }
}

/// The block uniform that `block_uniform` makes of a description.
pub open spec fn spec_block_uniform(gl_uniform: GlUniform) -> BlockUniform {
    BlockUniform {
        name: gl_uniform.name,
        uniform_type: UniformType::of_code(gl_uniform.uniform_type as GLenum),
        size: gl_uniform.size,
        offset: gl_uniform.offset,
        array_stride: gl_uniform.array_stride,
        matrix_stride: gl_uniform.matrix_stride,
    }
}

/// Reads a description as that of a uniform outside every block. Its location
/// is the one that the hardware has reported for its name.
pub fn uniform(gl_uniform: GlUniform) -> (uniform: Uniform)
    ensures
        uniform == spec_uniform(gl_uniform),
{
    Uniform {
        name: gl_uniform.name,
        location: gl_uniform.location,
        uniform_type: UniformType::from(#[verifier::truncate] (gl_uniform.uniform_type as GLenum)),
        size: gl_uniform.size,
    }
}

/// Reads a description as that of a uniform inside a block.
pub fn block_uniform(gl_uniform: GlUniform) -> (uniform: BlockUniform)
    ensures
        uniform == spec_block_uniform(gl_uniform),
{
    BlockUniform {
        name: gl_uniform.name,
        uniform_type: UniformType::from(#[verifier::truncate] (gl_uniform.uniform_type as GLenum)),
        size: gl_uniform.size,
        offset: gl_uniform.offset,
        array_stride: gl_uniform.array_stride,
        matrix_stride: gl_uniform.matrix_stride,
    }
}

/// Of the descriptions `gl_uniforms`, those of uniforms outside every block, read
/// as uniforms, in their order.
pub open spec fn globals_of(gl_uniforms: Seq<GlUniform>) -> Seq<Uniform>
    decreases gl_uniforms.len(),
{
    if gl_uniforms.len() == 0 {
        Seq::empty()
    } else if gl_uniforms.last().block_index < 0 {
        globals_of(gl_uniforms.drop_last()).push(spec_uniform(gl_uniforms.last()))
    } else {
        globals_of(gl_uniforms.drop_last())
    }
}

/// Of the descriptions `gl_uniforms`, those of uniforms in the block with index
/// `block`, read as block uniforms, in their order.
pub open spec fn members_of(gl_uniforms: Seq<GlUniform>, block: int) -> Seq<BlockUniform>
    decreases gl_uniforms.len(),
{
    if gl_uniforms.len() == 0 {
        Seq::empty()
    } else if gl_uniforms.last().block_index == block {
        members_of(gl_uniforms.drop_last(), block).push(spec_block_uniform(gl_uniforms.last()))
    } else {
        members_of(gl_uniforms.drop_last(), block)
    }
}

/// Whether `after` is the block `before` with `members` added behind its uniforms.
pub open spec fn block_extended(
    before: InterfaceBlock,
    after: InterfaceBlock,
    members: Seq<BlockUniform>,
) -> bool {
    &&& after.name == before.name
    &&& after.index == before.index
    &&& after.data_size == before.data_size
    &&& after.uniforms@ == before.uniforms@ + members
}

/// Sorts the uniforms that the hardware describes: one outside every block goes
/// to the globals, one inside a block to that block, each in the order of the
/// descriptions. A description names its block by the block's place in `blocks`.
pub fn get_uniform_info(gl_uniforms: Vec<GlUniform>, blocks: Vec<InterfaceBlock>) -> (info:
    UniformInfo)
    requires
        forall|k: int|
            0 <= k < gl_uniforms@.len() ==> (#[trigger] gl_uniforms@[k]).block_index < blocks@.len(),
    ensures
        info.globals@ == globals_of(gl_uniforms@),
        info.blocks@.len() == blocks@.len(),
        forall|b: int|
            0 <= b < blocks@.len() ==> block_extended(
                blocks@[b],
                #[trigger] info.blocks@[b],
                members_of(gl_uniforms@, b),
            ),
{
    let ghost described = gl_uniforms@;
    let ghost given = blocks@;
    let mut globals: Vec<Uniform> = Vec::new();
    let mut blocks = blocks;
    assert(described.take(0) =~= Seq::<GlUniform>::empty());
    for gl_uniform in iter: gl_uniforms.into_iter()
        invariant
            iter.seq() == described,
            forall|k: int|
                0 <= k < described.len() ==> (#[trigger] described[k]).block_index < given.len(),
            globals@ == globals_of(described.take(iter.index())),
            blocks@.len() == given.len(),
            forall|b: int|
                0 <= b < given.len() ==> block_extended(
                    given[b],
                    #[trigger] blocks@[b],
                    members_of(described.take(iter.index()), b),
                ),
    {
        let ghost done = iter.index();
        let ghost before = blocks@;
        proof {
            let next = described.take(done + 1);
            assert(gl_uniform == described[done]);
            assert(next.drop_last() =~= described.take(done));
            assert(next.last() == described[done]);
        }
        if gl_uniform.block_index < 0 {
            globals.push(uniform(gl_uniform));
        } else {
            let index: usize = gl_uniform.block_index as usize;
            blocks[index].uniforms.push(block_uniform(gl_uniform));
            assert forall|b: int| 0 <= b < given.len() implies block_extended(
                given[b],
                #[trigger] blocks@[b],
                members_of(described.take(done + 1), b),
            ) by {
                assert(block_extended(given[b], before[b], members_of(described.take(done), b)));
                if b == index {
                    assert(blocks@[b].uniforms@ =~= given[b].uniforms@ + members_of(
                        described.take(done + 1),
                        b,
                    ));
                }
            }
        }
    }
    assert(described.take(described.len() as int) =~= described);
    UniformInfo { globals, blocks }
}

/// The value at `index` of a list of one property of all uniforms, and 0 where
/// the list is too short to have one.
pub open spec fn property_at(values: Seq<GLint>, index: int) -> GLint {
    if 0 <= index < values.len() {
        values[index]
    } else {
        0
    }
}

/// The value at `index` of a list of one property of all uniforms, and 0 where
/// the list is too short to have one.
pub fn property(values: &[GLint], index: usize) -> (value: GLint)
    ensures
        value == property_at(values@, index as int),
{
    if index < values.len() {
        values[index]
    } else {
        0
    }
}

/// Puts the descriptions of the active uniforms together from what the hardware
/// reports: for each uniform its name with the location that the hardware gives
/// for that name, and one list for each property. The uniform at a place in
/// `named` gets the values at that place.
pub fn get_gl_uniforms(
    named: Vec<(String, GLint)>,
    sizes: &[GLint],
    uniform_types: &[GLint],
    offsets: &[GLint],
    block_indices: &[GLint],
    array_strides: &[GLint],
    matrix_strides: &[GLint],
) -> (uniforms: Vec<GlUniform>)
    ensures
        uniforms@.len() == named@.len(),
        forall|i: int|
            0 <= i < named@.len() ==> #[trigger] uniforms@[i] == (GlUniform {
                name: named@[i].0,
                location: named@[i].1,
                uniform_type: property_at(uniform_types@, i),
                size: property_at(sizes@, i),
                block_index: property_at(block_indices@, i),
                offset: property_at(offsets@, i),
                array_stride: property_at(array_strides@, i),
                matrix_stride: property_at(matrix_strides@, i),
            }),
{
    let ghost given = named@;
    let mut uniforms: Vec<GlUniform> = Vec::new();
    for one in iter: named.into_iter()
        invariant
            iter.seq() == given,
            uniforms@.len() == iter.index(),
            forall|i: int|
                0 <= i < iter.index() ==> #[trigger] uniforms@[i] == (GlUniform {
                    name: given[i].0,
                    location: given[i].1,
                    uniform_type: property_at(uniform_types@, i),
                    size: property_at(sizes@, i),
                    block_index: property_at(block_indices@, i),
                    offset: property_at(offsets@, i),
                    array_stride: property_at(array_strides@, i),
                    matrix_stride: property_at(matrix_strides@, i),
                }),
    {
        let (name, location) = one;
        let index: usize = uniforms.len();
        uniforms.push(
            GlUniform {
                name,
                location,
                uniform_type: property(uniform_types, index),
                size: property(sizes, index),
                block_index: property(block_indices, index),
                offset: property(offsets, index),
                array_stride: property(array_strides, index),
                matrix_stride: property(matrix_strides, index),
            },
        );
    }
    uniforms
}

/// Lists the interface blocks of a program from the name and the data size that
/// the hardware reports for each, in the order of their indices. The blocks hold
/// no uniforms yet.
pub fn get_uniform_blocks(described: Vec<(String, GLint)>) -> (blocks: Vec<InterfaceBlock>)
    requires
        described@.len() <= u32::MAX,
    ensures
        blocks@.len() == described@.len(),
        forall|i: int|
            0 <= i < described@.len() ==> {
                &&& (#[trigger] blocks@[i]).name == described@[i].0
                &&& blocks@[i].index == i
                &&& blocks@[i].data_size == described@[i].1
                &&& blocks@[i].uniforms@.len() == 0
            },
{
    let ghost given = described@;
    let mut blocks: Vec<InterfaceBlock> = Vec::new();
    for block in iter: described.into_iter()
        invariant
            iter.seq() == given,
            given.len() <= u32::MAX,
            blocks@.len() == iter.index(),
            forall|i: int|
                0 <= i < iter.index() ==> {
                    &&& (#[trigger] blocks@[i]).name == given[i].0
                    &&& blocks@[i].index == i
                    &&& blocks@[i].data_size == given[i].1
                    &&& blocks@[i].uniforms@.len() == 0
                },
    {
        let (name, data_size) = block;
        let index: usize = blocks.len();
        blocks.push(InterfaceBlock { index: index as u32, name, data_size, uniforms: Vec::new() });
    }
    blocks
}

/// What the values of a uniform are: numbers of one of four kinds, or the unit
/// of a sampler.
#[derive(Debug, Clone, Copy, PartialEq, Eq, Structural)]
pub enum UniformBase {
    Float,
    Int,
    UnsignedInt,
    Bool,
    Sampler,
}

impl UniformType {
    /// The kind of the values, where the library knows the type.
    pub open spec fn base(self) -> Option<UniformBase> {
        match self {
            UniformType::Float
            | UniformType::FloatVec2
            | UniformType::FloatVec3
            | UniformType::FloatVec4
            | UniformType::FloatMat2
            | UniformType::FloatMat3
            | UniformType::FloatMat4
            | UniformType::FloatMat2x3
            | UniformType::FloatMat2x4
            | UniformType::FloatMat3x2
            | UniformType::FloatMat3x4
            | UniformType::FloatMat4x2
            | UniformType::FloatMat4x3 => Some(UniformBase::Float),
            UniformType::Int
            | UniformType::IntVec2
            | UniformType::IntVec3
            | UniformType::IntVec4 => Some(UniformBase::Int),
            UniformType::UnsignedInt
            | UniformType::UnsignedIntVec2
            | UniformType::UnsignedIntVec3
            | UniformType::UnsignedIntVec4 => Some(UniformBase::UnsignedInt),
            UniformType::Bool
            | UniformType::BoolVec2
            | UniformType::BoolVec3
            | UniformType::BoolVec4 => Some(UniformBase::Bool),
            UniformType::UnrecognizedType(_) => None,
            _ => Some(UniformBase::Sampler),
        }
    }

    /// The number of columns of a matrix type; 1 for every other type.
    pub open spec fn columns(self) -> nat {
        match self {
            UniformType::FloatMat2 | UniformType::FloatMat2x3 | UniformType::FloatMat2x4 => 2,
            UniformType::FloatMat3 | UniformType::FloatMat3x2 | UniformType::FloatMat3x4 => 3,
            UniformType::FloatMat4 | UniformType::FloatMat4x2 | UniformType::FloatMat4x3 => 4,
            _ => 1,
        }
    }

    /// The number of rows of a matrix type, the width of a vector type, and 1 for
    /// every other type.
    pub open spec fn rows(self) -> nat {
        match self {
            UniformType::FloatVec2
            | UniformType::IntVec2
            | UniformType::UnsignedIntVec2
            | UniformType::BoolVec2
            | UniformType::FloatMat2
            | UniformType::FloatMat3x2
            | UniformType::FloatMat4x2 => 2,
            UniformType::FloatVec3
            | UniformType::IntVec3
            | UniformType::UnsignedIntVec3
            | UniformType::BoolVec3
            | UniformType::FloatMat3
            | UniformType::FloatMat2x3
            | UniformType::FloatMat4x3 => 3,
            UniformType::FloatVec4
            | UniformType::IntVec4
            | UniformType::UnsignedIntVec4
            | UniformType::BoolVec4
            | UniformType::FloatMat4
            | UniformType::FloatMat2x4
            | UniformType::FloatMat3x4 => 4,
            _ => 1,
        }
    }

    /// How many values make up one element of the type.
    pub open spec fn components(self) -> nat {
        self.columns() * self.rows()
    }

    /// Whether the type is a matrix.
    pub open spec fn is_matrix(self) -> bool {
        self.columns() > 1
    }
}

/// The call that sets `count` elements of `rows` floats each.
pub open spec fn float_vector_call(rows: nat, location: GLint, count: GLsizei) -> GlCall {
    if rows == 1 {
        GlCall::Uniform1fv { location, count }
    } else if rows == 2 {
        GlCall::Uniform2fv { location, count }
    } else if rows == 3 {
        GlCall::Uniform3fv { location, count }
    } else {
        GlCall::Uniform4fv { location, count }
    }
}

/// The call that sets `count` elements of `rows` signed integers each.
pub open spec fn int_vector_call(rows: nat, location: GLint, count: GLsizei) -> GlCall {
    if rows == 1 {
        GlCall::Uniform1iv { location, count }
    } else if rows == 2 {
        GlCall::Uniform2iv { location, count }
    } else if rows == 3 {
        GlCall::Uniform3iv { location, count }
    } else {
        GlCall::Uniform4iv { location, count }
    }
}

/// The call that sets `count` elements of `rows` unsigned integers each.
pub open spec fn unsigned_vector_call(rows: nat, location: GLint, count: GLsizei) -> GlCall {
    if rows == 1 {
        GlCall::Uniform1uiv { location, count }
    } else if rows == 2 {
        GlCall::Uniform2uiv { location, count }
    } else if rows == 3 {
        GlCall::Uniform3uiv { location, count }
    } else {
        GlCall::Uniform4uiv { location, count }
    }
}

/// The call that sets `count` matrices of `columns` by `rows` floats.
pub open spec fn matrix_call(
    columns: nat,
    rows: nat,
    location: GLint,
    count: GLsizei,
    transpose: GLboolean,
) -> GlCall {
    if columns == 2 {
        if rows == 2 {
            GlCall::UniformMatrix2fv { location, count, transpose }
        } else if rows == 3 {
            GlCall::UniformMatrix2x3fv { location, count, transpose }
        } else {
            GlCall::UniformMatrix2x4fv { location, count, transpose }
        }
    } else if columns == 3 {
        if rows == 2 {
            GlCall::UniformMatrix3x2fv { location, count, transpose }
        } else if rows == 3 {
            GlCall::UniformMatrix3fv { location, count, transpose }
        } else {
            GlCall::UniformMatrix3x4fv { location, count, transpose }
        }
    } else {
        if rows == 2 {
            GlCall::UniformMatrix4x2fv { location, count, transpose }
        } else if rows == 3 {
            GlCall::UniformMatrix4x3fv { location, count, transpose }
        } else {
            GlCall::UniformMatrix4fv { location, count, transpose }
        }
    }
}

/// What a setter decides once it knows whether the uniform's type takes values
/// of its kind: for `count` elements of the type exactly
/// `components() * count` values have to be given, and then `call` sets them.
pub open spec fn checked_call(
    accepted: bool,
    uniform_type: UniformType,
    count: u32,
    value_count: nat,
    call: GlCall,
) -> Result<GlCall, ReglError> {
    if !accepted {
        Err(ReglError::UniformTypeMismatch)
    } else if uniform_type.components() * count != value_count {
        Err(ReglError::InvalidUniformValueCount)
    } else {
        Ok(call)
    }
}

/// What `uniform_value_matrix` decides: a matrix of floats is set by the call for
/// its dimensions.
pub open spec fn spec_uniform_value_matrix(
    location: i32,
    uniform_type: UniformType,
    count: u32,
    value_count: nat,
    transpose: bool,
) -> Result<GlCall, ReglError> {
    checked_call(
        uniform_type.is_matrix(),
        uniform_type,
        count,
        value_count,
        matrix_call(
            uniform_type.columns(),
            uniform_type.rows(),
            location,
            count as GLsizei,
            if transpose {
                TRUE
            } else {
                FALSE
            },
        ),
    )
}

/// What `uniform_value_f32` decides: floats set uniforms of floats and of
/// booleans, and a matrix as `uniform_value_matrix` does without transposing.
pub open spec fn spec_uniform_value_f32(
    location: i32,
    uniform_type: UniformType,
    count: u32,
    value_count: nat,
) -> Result<GlCall, ReglError> {
    if uniform_type.is_matrix() {
        spec_uniform_value_matrix(location, uniform_type, count, value_count, false)
    } else {
        checked_call(
            uniform_type.base() == Some(UniformBase::Float) || uniform_type.base() == Some(
                UniformBase::Bool,
            ),
            uniform_type,
            count,
            value_count,
            float_vector_call(uniform_type.rows(), location, count as GLsizei),
        )
    }
}

/// What `uniform_value_i32` decides: signed integers set uniforms of signed
/// integers and of booleans, and samplers, which take one texture unit each.
pub open spec fn spec_uniform_value_i32(
    location: i32,
    uniform_type: UniformType,
    count: u32,
    value_count: nat,
) -> Result<GlCall, ReglError> {
    checked_call(
        uniform_type.base() == Some(UniformBase::Int) || uniform_type.base() == Some(
            UniformBase::Bool,
        ) || uniform_type.base() == Some(UniformBase::Sampler),
        uniform_type,
        count,
        value_count,
        int_vector_call(uniform_type.rows(), location, count as GLsizei),
    )
}

/// What `uniform_value_u32` decides: unsigned integers set uniforms of unsigned
/// integers and of booleans.
pub open spec fn spec_uniform_value_u32(
    location: i32,
    uniform_type: UniformType,
    count: u32,
    value_count: nat,
) -> Result<GlCall, ReglError> {
    checked_call(
        uniform_type.base() == Some(UniformBase::UnsignedInt) || uniform_type.base() == Some(
            UniformBase::Bool,
        ),
        uniform_type,
        count,
        value_count,
        unsigned_vector_call(uniform_type.rows(), location, count as GLsizei),
    )
}

/// Whether a setter did what `decision` says: on `Ok` it has appended the call
/// and nothing else, on `Err` it has returned that error and appended nothing.
pub open spec fn issued(
    decision: Result<GlCall, ReglError>,
    result: ReglResult<()>,
    before: Seq<GlCall>,
    after: Seq<GlCall>,
) -> bool {
    match decision {
        Ok(call) => result is Ok && after == before.push(call),
        Err(error) => result == Err::<(), ReglError>(error) && after == before,
    }
}

/// Sets `count` elements of a uniform from `value_count` floats of the caller.
pub fn uniform_value_f32(
    location: i32,
    uniform_type: UniformType,
    count: u32,
    value_count: usize,
    calls: &mut Vec<GlCall>,
) -> (result: ReglResult<()>)
    ensures
        issued(
            spec_uniform_value_f32(location, uniform_type, count, value_count as nat),
            result,
            old(calls)@,
            final(calls)@,
        ),
{
    match uniform_type {
        UniformType::FloatMat2
        | UniformType::FloatMat3
        | UniformType::FloatMat4
        | UniformType::FloatMat2x3
        | UniformType::FloatMat2x4
        | UniformType::FloatMat3x2
        | UniformType::FloatMat3x4
        | UniformType::FloatMat4x2
        | UniformType::FloatMat4x3 => {
            return uniform_value_matrix(location, uniform_type, count, value_count, false, calls);
        },
        _ => (),
    }
    let components: u32 = match uniform_type {
        UniformType::Bool | UniformType::Float => 1,
        UniformType::BoolVec2 | UniformType::FloatVec2 => 2,
        UniformType::BoolVec3 | UniformType::FloatVec3 => 3,
        UniformType::BoolVec4 | UniformType::FloatVec4 => 4,
        _ => {
            return Err(ReglError::UniformTypeMismatch);
        },
    };
    check_uniform_element_count(components, count, value_count)?;
    let count: i32 = #[verifier::truncate] (count as i32);
    let call = if components == 1 {
        GlCall::Uniform1fv { location, count }
    } else if components == 2 {
        GlCall::Uniform2fv { location, count }
    } else if components == 3 {
        GlCall::Uniform3fv { location, count }
    } else {
        GlCall::Uniform4fv { location, count }
    };
    calls.push(call);
    Ok(())
}

/// Sets `count` elements of a uniform from the signed integers `values`.
pub fn uniform_value_i32(
    location: i32,
    uniform_type: UniformType,
    count: u32,
    values: &[i32],
    calls: &mut Vec<GlCall>,
) -> (result: ReglResult<()>)
    ensures
        issued(
            spec_uniform_value_i32(location, uniform_type, count, values@.len()),
            result,
            old(calls)@,
            final(calls)@,
        ),
{
    let components: u32 = match uniform_type {
        UniformType::Bool | UniformType::Int => 1,
        UniformType::BoolVec2 | UniformType::IntVec2 => 2,
        UniformType::BoolVec3 | UniformType::IntVec3 => 3,
        UniformType::BoolVec4 | UniformType::IntVec4 => 4,
        UniformType::Sampler1d
        | UniformType::Sampler2d
        | UniformType::Sampler3d
        | UniformType::SamplerCube
        | UniformType::Sampler1dShadow
        | UniformType::Sampler2dShadow
        | UniformType::Sampler1dArray
        | UniformType::Sampler2dArray
        | UniformType::Sampler1dArrayShadow
        | UniformType::Sampler2dArrayShadow
        | UniformType::Sampler2dMultisample
        | UniformType::Sampler2dMultisampleArray
        | UniformType::SamplerCubeShadow
        | UniformType::SamplerBuffer
        | UniformType::Sampler2dRect
        | UniformType::Sampler2dRectShadow
        | UniformType::IntSampler1d
        | UniformType::IntSampler2d
        | UniformType::IntSampler3d
        | UniformType::IntSamplerCube
        | UniformType::IntSampler1dArray
        | UniformType::IntSampler2dArray
        | UniformType::IntSampler2dMultisample
        | UniformType::IntSampler2dMultisampleArray
        | UniformType::IntSamplerBuffer
        | UniformType::IntSampler2dRect
        | UniformType::UnsignedIntSampler1d
        | UniformType::UnsignedIntSampler2d
        | UniformType::UnsignedIntSampler3d
        | UniformType::UnsignedIntSamplerCube
        | UniformType::UnsignedIntSampler1dArray
        | UniformType::UnsignedIntSampler2dArray
        | UniformType::UnsignedIntSampler2dMultisample
        | UniformType::UnsignedIntSampler2dMultisampleArray
        | UniformType::UnsignedIntSamplerBuffer
        | UniformType::UnsignedIntSampler2dRect => 1,
        _ => {
            return Err(ReglError::UniformTypeMismatch);
        },
    };
    check_uniform_element_count(components, count, values.len())?;
    let count: i32 = #[verifier::truncate] (count as i32);
    let call = if components == 1 {
        GlCall::Uniform1iv { location, count }
    } else if components == 2 {
        GlCall::Uniform2iv { location, count }
    } else if components == 3 {
        GlCall::Uniform3iv { location, count }
    } else {
        GlCall::Uniform4iv { location, count }
    };
    calls.push(call);
    Ok(())
}

/// Sets `count` elements of a uniform from the unsigned integers `values`.
pub fn uniform_value_u32(
    location: i32,
    uniform_type: UniformType,
    count: u32,
    values: &[u32],
    calls: &mut Vec<GlCall>,
) -> (result: ReglResult<()>)
    ensures
        issued(
            spec_uniform_value_u32(location, uniform_type, count, values@.len()),
            result,
            old(calls)@,
            final(calls)@,
        ),
{
    let components: u32 = match uniform_type {
        UniformType::Bool | UniformType::UnsignedInt => 1,
        UniformType::BoolVec2 | UniformType::UnsignedIntVec2 => 2,
        UniformType::BoolVec3 | UniformType::UnsignedIntVec3 => 3,
        UniformType::BoolVec4 | UniformType::UnsignedIntVec4 => 4,
        _ => {
            return Err(ReglError::UniformTypeMismatch);
        },
    };
    check_uniform_element_count(components, count, values.len())?;
    let count: i32 = #[verifier::truncate] (count as i32);
    let call = if components == 1 {
        GlCall::Uniform1uiv { location, count }
    } else if components == 2 {
        GlCall::Uniform2uiv { location, count }
    } else if components == 3 {
        GlCall::Uniform3uiv { location, count }
    } else {
        GlCall::Uniform4uiv { location, count }
    };
    calls.push(call);
    Ok(())
}

/// Sets `count` matrices of a uniform from `value_count` floats of the caller,
/// which the hardware is to read row by row where `transpose` is set.
pub fn uniform_value_matrix(
    location: i32,
    uniform_type: UniformType,
    count: u32,
    value_count: usize,
    transpose: bool,
    calls: &mut Vec<GlCall>,
) -> (result: ReglResult<()>)
    ensures
        issued(
            spec_uniform_value_matrix(location, uniform_type, count, value_count as nat, transpose),
            result,
            old(calls)@,
            final(calls)@,
        ),
{
    let transpose: GLboolean = if transpose {
        TRUE
    } else {
        FALSE
    };
    let components: u32 = match uniform_type {
        UniformType::FloatMat2 => 2 * 2,
        UniformType::FloatMat3 => 3 * 3,
        UniformType::FloatMat4 => 4 * 4,
        UniformType::FloatMat2x3 => 2 * 3,
        UniformType::FloatMat2x4 => 2 * 4,
        UniformType::FloatMat3x2 => 3 * 2,
        UniformType::FloatMat3x4 => 3 * 4,
        UniformType::FloatMat4x2 => 4 * 2,
        UniformType::FloatMat4x3 => 4 * 3,
        _ => {
            return Err(ReglError::UniformTypeMismatch);
        },
    };
    check_uniform_element_count(components, count, value_count)?;
    let count: i32 = #[verifier::truncate] (count as i32);
    let call = match uniform_type {
        UniformType::FloatMat2 => GlCall::UniformMatrix2fv { location, count, transpose },
        UniformType::FloatMat3 => GlCall::UniformMatrix3fv { location, count, transpose },
        UniformType::FloatMat4 => GlCall::UniformMatrix4fv { location, count, transpose },
        UniformType::FloatMat2x3 => GlCall::UniformMatrix2x3fv { location, count, transpose },
        UniformType::FloatMat2x4 => GlCall::UniformMatrix2x4fv { location, count, transpose },
        UniformType::FloatMat3x2 => GlCall::UniformMatrix3x2fv { location, count, transpose },
        UniformType::FloatMat3x4 => GlCall::UniformMatrix3x4fv { location, count, transpose },
        UniformType::FloatMat4x2 => GlCall::UniformMatrix4x2fv { location, count, transpose },
        _ => GlCall::UniformMatrix4x3fv { location, count, transpose },
    };
    calls.push(call);
    Ok(())
}

/// Checks that `value_count` values are what `count` elements of `components`
/// values each need.
pub fn check_uniform_element_count(components: u32, count: u32, value_count: usize) -> (result:
    ReglResult<()>)
    ensures
        components * count == value_count ==> result is Ok,
        components * count != value_count ==> result == Err::<(), ReglError>(
            ReglError::InvalidUniformValueCount,
        ),
{
    assert(components * count <= 0xFFFF_FFFF * 0xFFFF_FFFF) by (nonlinear_arith)
        requires
            components <= 0xFFFF_FFFF,
            count <= 0xFFFF_FFFF,
    ;
    let needed: u64 = (components as u64) * (count as u64);
    if needed == value_count as u64 {
        Ok(())
    } else {
        Err(ReglError::InvalidUniformValueCount)
    }
}

} // verus!
