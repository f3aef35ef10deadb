//! The hardware calls that the library decides on.
//!
//! A call is recorded with the arguments that the library chooses. Where the
//! hardware function also takes a pointer to data of the caller, the data stays
//! with the caller, who passes it when performing the call.

use vstd::prelude::*;
use gl::types::{GLbitfield, GLboolean, GLenum, GLint, GLintptr, GLsizei, GLsizeiptr, GLuint};
use crate::glenum::{
    INVALID_ENUM, INVALID_FRAMEBUFFER_OPERATION, INVALID_OPERATION, INVALID_VALUE, OUT_OF_MEMORY,
};

verus! {

/// One call of a function of the graphics API. The variants are named after the
/// functions, the fields after their parameters.
#[derive(Debug, Clone, Copy, PartialEq, Eq, Structural)]
#[allow(inconsistent_fields)]
pub enum GlCall {
    BindBuffer { target: GLenum, buffer: GLuint },
    BindVertexArray { array: GLuint },
    BindFramebuffer { target: GLenum, framebuffer: GLuint },
    UseProgram { program: GLuint },
    /// Allocates `size` bytes for the buffer bound to `target` and fills them with
    /// the caller's data.
    BufferData { target: GLenum, size: GLsizeiptr, usage: GLenum },
    /// Overwrites `size` bytes from `offset` on with the caller's data.
    BufferSubData { target: GLenum, offset: GLintptr, size: GLsizeiptr },
    EnableVertexAttribArray { index: GLuint },
    /// `pointer` is the offset in bytes into the bound vertex buffer.
    VertexAttribPointer {
        index: GLuint,
        size: GLint,
        type_: GLenum,
        normalized: GLboolean,
        stride: GLsizei,
        pointer: usize,
    },
    DeleteBuffers { buffer: GLuint },
    DeleteVertexArrays { array: GLuint },
    DeleteFramebuffers { framebuffer: GLuint },
    DeleteProgram { program: GLuint },
    DeleteShader { shader: GLuint },
    Clear { mask: GLbitfield },
    Enable { cap: GLenum },
    Disable { cap: GLenum },
    Viewport { x: GLint, y: GLint, width: GLsizei, height: GLsizei },
    DrawArrays { mode: GLenum, first: GLint, count: GLsizei },
    /// `indices` is the offset in bytes into the bound index buffer.
    DrawElementsBaseVertex {
        mode: GLenum,
        count: GLsizei,
        type_: GLenum,
        indices: usize,
        basevertex: GLint,
    },
    /// Hands the shader one source string of the caller, `length` bytes long.
    ShaderSource { shader: GLuint, length: GLint },
    CompileShader { shader: GLuint },
    AttachShader { program: GLuint, shader: GLuint },
    LinkProgram { program: GLuint },
    Uniform1fv { location: GLint, count: GLsizei },
    Uniform2fv { location: GLint, count: GLsizei },
    Uniform3fv { location: GLint, count: GLsizei },
    Uniform4fv { location: GLint, count: GLsizei },
    Uniform1iv { location: GLint, count: GLsizei },
    Uniform2iv { location: GLint, count: GLsizei },
    Uniform3iv { location: GLint, count: GLsizei },
    Uniform4iv { location: GLint, count: GLsizei },
    Uniform1uiv { location: GLint, count: GLsizei },
    Uniform2uiv { location: GLint, count: GLsizei },
    Uniform3uiv { location: GLint, count: GLsizei },
    Uniform4uiv { location: GLint, count: GLsizei },
    UniformMatrix2fv { location: GLint, count: GLsizei, transpose: GLboolean },
    UniformMatrix3fv { location: GLint, count: GLsizei, transpose: GLboolean },
    UniformMatrix4fv { location: GLint, count: GLsizei, transpose: GLboolean },
    UniformMatrix2x3fv { location: GLint, count: GLsizei, transpose: GLboolean },
    UniformMatrix2x4fv { location: GLint, count: GLsizei, transpose: GLboolean },
    UniformMatrix3x2fv { location: GLint, count: GLsizei, transpose: GLboolean },
    UniformMatrix3x4fv { location: GLint, count: GLsizei, transpose: GLboolean },
    UniformMatrix4x2fv { location: GLint, count: GLsizei, transpose: GLboolean },
    UniformMatrix4x3fv { location: GLint, count: GLsizei, transpose: GLboolean },
}

/// The calls that a bind contributes: `call` where the bind is needed, nothing
/// where the object is current already.
pub open spec fn calls_if(bind: bool, call: GlCall) -> Seq<GlCall> {
    if bind {
        seq![call]
    } else {
        Seq::empty()
    }
}

/// Appends `call` to `calls` where `bind` says that it is needed.
pub fn push_if(bind: bool, call: GlCall, calls: &mut Vec<GlCall>)
    ensures
        final(calls)@ == old(calls)@ + calls_if(bind, call),
{
    if bind {
        calls.push(call);
    }
    assert(calls@ =~= old(calls)@ + calls_if(bind, call));
}

/// The name of an error code that the hardware reports after a call.
pub open spec fn spec_error_name(error: GLenum) -> Seq<char> {
    if error == INVALID_ENUM {
        "INVALID_ENUM"@
    } else if error == INVALID_VALUE {
        "INVALID_VALUE"@
    } else if error == INVALID_OPERATION {
        "INVALID_OPERATION"@
    } else if error == INVALID_FRAMEBUFFER_OPERATION {
        "INVALID_FRAMEBUFFER_OPERATION"@
    } else if error == OUT_OF_MEMORY {
        "OUT_OF_MEMORY"@
    } else {
        "Unrecognized error"@
    }
}

/// Names an error code for a diagnostic. The hardware's errors are reported, not
/// returned: an operation of the library does not fail on them.
pub fn error_name(error: GLenum) -> (name: &'static str)
    ensures
        name@ == spec_error_name(error),
{
    if error == INVALID_ENUM {
        "INVALID_ENUM"
    } else if error == INVALID_VALUE {
        "INVALID_VALUE"
    } else if error == INVALID_OPERATION {
        "INVALID_OPERATION"
    } else if error == INVALID_FRAMEBUFFER_OPERATION {
        "INVALID_FRAMEBUFFER_OPERATION"
    } else if error == OUT_OF_MEMORY {
        "OUT_OF_MEMORY"
    } else {
        "Unrecognized error"
    }
}

} // verus!
