//! Vertex attributes of a shader program, as the hardware reports them.

use vstd::prelude::*;
use vstd::std_specs::convert::FromSpecImpl;
use gl::types::{GLenum, GLint, GLsizei};
use crate::glenum::{
    FLOAT, FLOAT_VEC2, FLOAT_VEC3, FLOAT_VEC4, FLOAT_MAT2, FLOAT_MAT3, FLOAT_MAT4,
    FLOAT_MAT2x3, FLOAT_MAT2x4, FLOAT_MAT3x2, FLOAT_MAT3x4, FLOAT_MAT4x2, FLOAT_MAT4x3, INT,
    INT_VEC2, INT_VEC3, INT_VEC4, UNSIGNED_INT, UNSIGNED_INT_VEC2, UNSIGNED_INT_VEC3,
    UNSIGNED_INT_VEC4,
};
use crate::text::{name_from_buffer, same_text, utf8_lossy};

verus! {

/// The data type of a vertex attribute, as the shading language declares it.
#[derive(Debug, Clone, Copy, PartialEq, Eq, Structural)]
pub enum ShaderAttributeType {
    Float,
    FloatVec2,
    FloatVec3,
    FloatVec4,
    FloatMat2,
    FloatMat3,
    FloatMat4,
    FloatMat2x3,
    FloatMat2x4,
    FloatMat3x2,
    FloatMat3x4,
    FloatMat4x2,
    FloatMat4x3,
    Int,
    IntVec2,
    IntVec3,
    IntVec4,
    UnsignedInt,
    UnsignedIntVec2,
    UnsignedIntVec3,
    UnsignedIntVec4,
    /// A type code that the library has no name for.
    UnrecognizedType(u32),
}

/// An active attribute of a shader program.
#[derive(Debug)]
pub struct ShaderAttribute {
    /// Name of the attribute.
    pub name: String,
    /// Index of the attribute.
    pub location: i32,
    /// Data type of the attribute.
    pub attribute_type: ShaderAttributeType,
    /// How many elements of the type the attribute holds.
    pub size: i32,
}

/// The active attributes of a shader program.
#[derive(Debug)]
pub struct AttributeInfo {
    pub attributes: Vec<ShaderAttribute>,
}

/// Whether `position` is the place of the first of `attributes` that is called `name`.
pub open spec fn is_first_named(
    attributes: Seq<ShaderAttribute>,
    name: Seq<char>,
    position: int,
) -> bool {
    &&& 0 <= position < attributes.len()
    &&& attributes[position].name@ == name
    &&& forall|i: int| 0 <= i < position ==> attributes[i].name@ != name
}

impl AttributeInfo {
    /// The first attribute with the given name.
    pub fn find(&self, name: &str) -> (found: Option<&ShaderAttribute>)
        ensures
            match found {
                Some(attribute) => exists|position: int|
                    is_first_named(self.attributes@, name@, position)
                        && self.attributes@[position] == *attribute,
                None => forall|i: int|
                    0 <= i < self.attributes@.len() ==> self.attributes@[i].name@ != name@,
            },
    {
        let mut i: usize = 0;
        while i < self.attributes.len()
            invariant
                i <= self.attributes@.len(),
                forall|k: int| 0 <= k < i ==> self.attributes@[k].name@ != name@,
            decreases self.attributes@.len() - i,
        {
            if same_text(self.attributes[i].name.as_str(), name) {
                assert(is_first_named(self.attributes@, name@, i as int));
                return Some(&self.attributes[i]);
            }
            i += 1;
        }
        None
    }
}

/// Describes an attribute from what the hardware reports of it.
pub fn shader_attribute(name: String, location: i32, gl_type: GLenum, size: GLint) -> (attribute:
    ShaderAttribute)
    ensures
        attribute.name == name,
        attribute.location == location,
        attribute.attribute_type == ShaderAttributeType::of_code(gl_type),
        attribute.size == size,
{
    ShaderAttribute {
        name,
        location,
        attribute_type: ShaderAttributeType::from(gl_type),
        size,
    }
}

/// Describes an attribute from what the hardware has written: its name into the
/// first `actual_length` bytes of `name_buffer`, and the rest beside it.
pub fn make_attribute(
    name_buffer: &[u8],
    actual_length: GLsizei,
    size: GLint,
    gl_type: GLenum,
    location: GLint,
) -> (attribute: ShaderAttribute)
    requires
        0 <= actual_length <= name_buffer@.len(),
    ensures
        attribute.name@ == utf8_lossy(name_buffer@.subrange(0, actual_length as int)),
        attribute.location == location,
        attribute.attribute_type == ShaderAttributeType::of_code(gl_type),
        attribute.size == size,
{
    shader_attribute(name_from_buffer(name_buffer, actual_length), location, gl_type, size)
}

/// One active attribute as the hardware describes it: the buffer that it wrote
/// the name into, and the rest beside it.
#[derive(Debug)]
pub struct GlAttribute {
    pub name_buffer: Vec<u8>,
    /// How many bytes of the buffer the name takes.
    pub actual_length: GLsizei,
    pub size: GLint,
    pub gl_type: GLenum,
    pub location: GLint,
}

/// Whether `attribute` is what `described` describes.
pub open spec fn describes(described: GlAttribute, attribute: ShaderAttribute) -> bool {
    &&& attribute.name@ == utf8_lossy(
        described.name_buffer@.subrange(0, described.actual_length as int),
    )
    &&& attribute.location == described.location
    &&& attribute.attribute_type == ShaderAttributeType::of_code(described.gl_type)
    &&& attribute.size == described.size
}

/// Lists the active attributes of a program from what the hardware reports of
/// each, in the order of the reports.
pub fn get_attribute_info(described: &[GlAttribute]) -> (info: AttributeInfo)
    requires
        forall|i: int|
            0 <= i < described@.len() ==> 0 <= (#[trigger] described@[i]).actual_length
                <= described@[i].name_buffer@.len(),
    ensures
        info.attributes@.len() == described@.len(),
        forall|i: int|
            0 <= i < described@.len() ==> describes(described@[i], #[trigger] info.attributes@[i]),
{
    let mut attributes: Vec<ShaderAttribute> = Vec::new();
    let mut i: usize = 0;
    while i < described.len()
        invariant
            i <= described@.len(),
            attributes@.len() == i,
            forall|k: int|
                0 <= k < described@.len() ==> 0 <= (#[trigger] described@[k]).actual_length
                    <= described@[k].name_buffer@.len(),
            forall|k: int| 0 <= k < i ==> describes(described@[k], #[trigger] attributes@[k]),
        decreases described@.len() - i,
    {
        let one = &described[i];
        attributes.push(
            make_attribute(
                one.name_buffer.as_slice(),
                one.actual_length,
                one.size,
                one.gl_type,
                one.location,
            ),
        );
        i += 1;
    }
    AttributeInfo { attributes }
}

impl From<GLenum> for ShaderAttributeType {
    /// Reads the type code that the hardware reports for an attribute.
    fn from(gl_type: GLenum) -> (attribute_type: ShaderAttributeType) {
        match gl_type {
            FLOAT => ShaderAttributeType::Float,
            FLOAT_VEC2 => ShaderAttributeType::FloatVec2,
            FLOAT_VEC3 => ShaderAttributeType::FloatVec3,
            FLOAT_VEC4 => ShaderAttributeType::FloatVec4,
            FLOAT_MAT2 => ShaderAttributeType::FloatMat2,
            FLOAT_MAT3 => ShaderAttributeType::FloatMat3,
            FLOAT_MAT4 => ShaderAttributeType::FloatMat4,
            FLOAT_MAT2x3 => ShaderAttributeType::FloatMat2x3,
            FLOAT_MAT2x4 => ShaderAttributeType::FloatMat2x4,
            FLOAT_MAT3x2 => ShaderAttributeType::FloatMat3x2,
            FLOAT_MAT3x4 => ShaderAttributeType::FloatMat3x4,
            FLOAT_MAT4x2 => ShaderAttributeType::FloatMat4x2,
            FLOAT_MAT4x3 => ShaderAttributeType::FloatMat4x3,
            INT => ShaderAttributeType::Int,
            INT_VEC2 => ShaderAttributeType::IntVec2,
            INT_VEC3 => ShaderAttributeType::IntVec3,
            INT_VEC4 => ShaderAttributeType::IntVec4,
            UNSIGNED_INT => ShaderAttributeType::UnsignedInt,
            UNSIGNED_INT_VEC2 => ShaderAttributeType::UnsignedIntVec2,
            UNSIGNED_INT_VEC3 => ShaderAttributeType::UnsignedIntVec3,
            UNSIGNED_INT_VEC4 => ShaderAttributeType::UnsignedIntVec4,
            other => ShaderAttributeType::UnrecognizedType(other),
        }
    }
}

impl FromSpecImpl<GLenum> for ShaderAttributeType {
    open spec fn obeys_from_spec() -> bool {
        true
    }

    open spec fn from_spec(gl_type: GLenum) -> ShaderAttributeType {
        ShaderAttributeType::of_code(gl_type)
    }
}

impl ShaderAttributeType {
    /// The type that the hardware's code `gl_type` stands for.
    pub open spec fn of_code(gl_type: GLenum) -> ShaderAttributeType {
        if gl_type == FLOAT {
            ShaderAttributeType::Float
        } else if gl_type == FLOAT_VEC2 {
            ShaderAttributeType::FloatVec2
        } else if gl_type == FLOAT_VEC3 {
            ShaderAttributeType::FloatVec3
        } else if gl_type == FLOAT_VEC4 {
            ShaderAttributeType::FloatVec4
        } else if gl_type == FLOAT_MAT2 {
            ShaderAttributeType::FloatMat2
        } else if gl_type == FLOAT_MAT3 {
            ShaderAttributeType::FloatMat3
        } else if gl_type == FLOAT_MAT4 {
            ShaderAttributeType::FloatMat4
        } else if gl_type == FLOAT_MAT2x3 {
            ShaderAttributeType::FloatMat2x3
        } else if gl_type == FLOAT_MAT2x4 {
            ShaderAttributeType::FloatMat2x4
        } else if gl_type == FLOAT_MAT3x2 {
            ShaderAttributeType::FloatMat3x2
        } else if gl_type == FLOAT_MAT3x4 {
            ShaderAttributeType::FloatMat3x4
        } else if gl_type == FLOAT_MAT4x2 {
            ShaderAttributeType::FloatMat4x2
        } else if gl_type == FLOAT_MAT4x3 {
            ShaderAttributeType::FloatMat4x3
        } else if gl_type == INT {
            ShaderAttributeType::Int
        } else if gl_type == INT_VEC2 {
            ShaderAttributeType::IntVec2
        } else if gl_type == INT_VEC3 {
            ShaderAttributeType::IntVec3
        } else if gl_type == INT_VEC4 {
            ShaderAttributeType::IntVec4
        } else if gl_type == UNSIGNED_INT {
            ShaderAttributeType::UnsignedInt
        } else if gl_type == UNSIGNED_INT_VEC2 {
            ShaderAttributeType::UnsignedIntVec2
        } else if gl_type == UNSIGNED_INT_VEC3 {
            ShaderAttributeType::UnsignedIntVec3
        } else if gl_type == UNSIGNED_INT_VEC4 {
            ShaderAttributeType::UnsignedIntVec4
        } else {
            ShaderAttributeType::UnrecognizedType(gl_type)
        }
    }
}

} // verus!
