//! The codes by which the hardware knows types, modes and binding points, under
//! the names that the `gl` bindings give them. Hardware calls take and return
//! these numbers.

use vstd::prelude::*;
use gl::types::{GLbitfield, GLboolean, GLenum};

verus! {

// Data types of shader variables.
pub const FLOAT: GLenum = 0x1406;

pub const FLOAT_VEC2: GLenum = 0x8B50;

pub const FLOAT_VEC3: GLenum = 0x8B51;

pub const FLOAT_VEC4: GLenum = 0x8B52;

pub const INT: GLenum = 0x1404;

pub const INT_VEC2: GLenum = 0x8B53;

pub const INT_VEC3: GLenum = 0x8B54;

pub const INT_VEC4: GLenum = 0x8B55;

pub const UNSIGNED_INT: GLenum = 0x1405;

pub const UNSIGNED_INT_VEC2: GLenum = 0x8DC6;

pub const UNSIGNED_INT_VEC3: GLenum = 0x8DC7;

pub const UNSIGNED_INT_VEC4: GLenum = 0x8DC8;

pub const BOOL: GLenum = 0x8B56;

pub const BOOL_VEC2: GLenum = 0x8B57;

pub const BOOL_VEC3: GLenum = 0x8B58;

pub const BOOL_VEC4: GLenum = 0x8B59;

pub const FLOAT_MAT2: GLenum = 0x8B5A;

pub const FLOAT_MAT3: GLenum = 0x8B5B;

pub const FLOAT_MAT4: GLenum = 0x8B5C;

#[allow(non_upper_case_globals)]
pub const FLOAT_MAT2x3: GLenum = 0x8B65;

#[allow(non_upper_case_globals)]
pub const FLOAT_MAT2x4: GLenum = 0x8B66;

#[allow(non_upper_case_globals)]
pub const FLOAT_MAT3x2: GLenum = 0x8B67;

#[allow(non_upper_case_globals)]
pub const FLOAT_MAT3x4: GLenum = 0x8B68;

#[allow(non_upper_case_globals)]
pub const FLOAT_MAT4x2: GLenum = 0x8B69;

#[allow(non_upper_case_globals)]
pub const FLOAT_MAT4x3: GLenum = 0x8B6A;

pub const SAMPLER_1D: GLenum = 0x8B5D;

pub const SAMPLER_2D: GLenum = 0x8B5E;

pub const SAMPLER_3D: GLenum = 0x8B5F;

pub const SAMPLER_CUBE: GLenum = 0x8B60;

pub const SAMPLER_1D_SHADOW: GLenum = 0x8B61;

pub const SAMPLER_2D_SHADOW: GLenum = 0x8B62;

pub const SAMPLER_1D_ARRAY: GLenum = 0x8DC0;

pub const SAMPLER_2D_ARRAY: GLenum = 0x8DC1;

pub const SAMPLER_1D_ARRAY_SHADOW: GLenum = 0x8DC3;

pub const SAMPLER_2D_ARRAY_SHADOW: GLenum = 0x8DC4;

pub const SAMPLER_2D_MULTISAMPLE: GLenum = 0x9108;

pub const SAMPLER_2D_MULTISAMPLE_ARRAY: GLenum = 0x910B;

pub const SAMPLER_CUBE_SHADOW: GLenum = 0x8DC5;

pub const SAMPLER_BUFFER: GLenum = 0x8DC2;

pub const SAMPLER_2D_RECT: GLenum = 0x8B63;

pub const SAMPLER_2D_RECT_SHADOW: GLenum = 0x8B64;

pub const INT_SAMPLER_1D: GLenum = 0x8DC9;

pub const INT_SAMPLER_2D: GLenum = 0x8DCA;

pub const INT_SAMPLER_3D: GLenum = 0x8DCB;

pub const INT_SAMPLER_CUBE: GLenum = 0x8DCC;

pub const INT_SAMPLER_1D_ARRAY: GLenum = 0x8DCE;

pub const INT_SAMPLER_2D_ARRAY: GLenum = 0x8DCF;

pub const INT_SAMPLER_2D_MULTISAMPLE: GLenum = 0x9109;

pub const INT_SAMPLER_2D_MULTISAMPLE_ARRAY: GLenum = 0x910C;

pub const INT_SAMPLER_BUFFER: GLenum = 0x8DD0;

pub const INT_SAMPLER_2D_RECT: GLenum = 0x8DCD;

pub const UNSIGNED_INT_SAMPLER_1D: GLenum = 0x8DD1;

pub const UNSIGNED_INT_SAMPLER_2D: GLenum = 0x8DD2;

pub const UNSIGNED_INT_SAMPLER_3D: GLenum = 0x8DD3;

pub const UNSIGNED_INT_SAMPLER_CUBE: GLenum = 0x8DD4;

pub const UNSIGNED_INT_SAMPLER_1D_ARRAY: GLenum = 0x8DD6;

pub const UNSIGNED_INT_SAMPLER_2D_ARRAY: GLenum = 0x8DD7;

pub const UNSIGNED_INT_SAMPLER_2D_MULTISAMPLE: GLenum = 0x910A;

pub const UNSIGNED_INT_SAMPLER_2D_MULTISAMPLE_ARRAY: GLenum = 0x910D;

pub const UNSIGNED_INT_SAMPLER_BUFFER: GLenum = 0x8DD8;

pub const UNSIGNED_INT_SAMPLER_2D_RECT: GLenum = 0x8DD5;

// Element types of vertex data.
pub const BYTE: GLenum = 0x1400;

pub const UNSIGNED_BYTE: GLenum = 0x1401;

pub const SHORT: GLenum = 0x1402;

pub const UNSIGNED_SHORT: GLenum = 0x1403;

pub const HALF_FLOAT: GLenum = 0x140B;

pub const DOUBLE: GLenum = 0x140A;

pub const INT_2_10_10_10_REV: GLenum = 0x8D9F;

pub const UNSIGNED_INT_2_10_10_10_REV: GLenum = 0x8368;

// Buffer binding points and usage hints.
pub const ARRAY_BUFFER: GLenum = 0x8892;

pub const ELEMENT_ARRAY_BUFFER: GLenum = 0x8893;

pub const UNIFORM_BUFFER: GLenum = 0x8A11;

pub const STREAM_DRAW: GLenum = 0x88E0;

pub const STREAM_READ: GLenum = 0x88E1;

pub const STREAM_COPY: GLenum = 0x88E2;

pub const STATIC_DRAW: GLenum = 0x88E4;

pub const STATIC_READ: GLenum = 0x88E5;

pub const STATIC_COPY: GLenum = 0x88E6;

pub const DYNAMIC_DRAW: GLenum = 0x88E8;

pub const DYNAMIC_READ: GLenum = 0x88E9;

pub const DYNAMIC_COPY: GLenum = 0x88EA;

// Primitive modes and shader kinds.
pub const TRIANGLES: GLenum = 0x0004;

pub const VERTEX_SHADER: GLenum = 0x8B31;

pub const FRAGMENT_SHADER: GLenum = 0x8B30;

// Capabilities.
pub const DEPTH_TEST: GLenum = 0x0B71;

pub const CULL_FACE: GLenum = 0x0B44;

// Framebuffer binding point and the planes to clear.
pub const DRAW_FRAMEBUFFER: GLenum = 0x8CA9;

pub const COLOR_BUFFER_BIT: GLbitfield = 0x4000;

pub const DEPTH_BUFFER_BIT: GLbitfield = 0x100;

pub const STENCIL_BUFFER_BIT: GLbitfield = 0x400;

// Booleans.
pub const TRUE: GLboolean = 1;

pub const FALSE: GLboolean = 0;

// Error codes.
pub const NO_ERROR: GLenum = 0;

pub const INVALID_ENUM: GLenum = 0x0500;

pub const INVALID_VALUE: GLenum = 0x0501;

pub const INVALID_OPERATION: GLenum = 0x0502;

pub const INVALID_FRAMEBUFFER_OPERATION: GLenum = 0x0506;

pub const OUT_OF_MEMORY: GLenum = 0x0505;

} // verus!
