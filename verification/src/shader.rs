//! Shaders: the stages of a program, compiled from source text.

use vstd::prelude::*;
use vstd::string::StringSliceAdditionalSpecFns;
use gl::types::{GLenum, GLint};
use crate::call::{calls_if, push_if, GlCall};
use crate::error::ReglError;
use crate::glenum::{FRAGMENT_SHADER, VERTEX_SHADER};
use crate::resource::ResourceCreationSupport;
use crate::text::{c_string, is_first_nul, nul_free};
use crate::GlId;
use crate::ReglResult;

verus! {

/// A context under which shaders are created.
pub trait ShaderCreationSupport: ResourceCreationSupport {
    /// Whether a shader that the hardware did not compile is refused.
    spec fn validates_compilation(&self) -> bool;

    /// Whether a shader that the hardware did not compile is refused.
    fn validate_after_compilation(&self) -> (validate: bool)
        ensures
            validate == self.validates_compilation(),
    ;
}

/// What the library itself reads of a shader, and its users do not.
pub trait InternalShader {
    /// The name that the hardware knows the shader by.
    spec fn handle(&self) -> GlId;

    /// The name that the hardware knows the shader by.
    fn gl_id(&self) -> (gl_id: GlId)
        ensures
            gl_id == self.handle(),
    ;
}

/// The stage that a shader runs at.
#[derive(Debug, Clone, Copy, PartialEq, Eq, Structural)]
pub enum ShaderType {
    VertexShader,
    FragmentShader,
}

impl ShaderType {
    /// The hardware's code for the stage.
    pub open spec fn code(self) -> GLenum {
        match self {
            ShaderType::VertexShader => VERTEX_SHADER,
            ShaderType::FragmentShader => FRAGMENT_SHADER,
        }
    }
}

/// The stage of a shader and its source text.
#[derive(Debug, Clone, Copy)]
pub struct ShaderSource<'a>(pub ShaderType, pub &'a str);

/// A compiled shader of the hardware.
#[derive(Debug)]
pub struct Shader {
    gl_id: GlId,
}

impl Shader {
    /// Hands the source to the hardware shader `gl_id`, which the caller has
    /// just had created for the stage of `shader_source`, and has it compiled.
    /// Returns the source as the C string that goes with the first of the two
    /// calls. A source with a NUL byte in it is refused: it is not handed over,
    /// and the hardware's shader is deleted, since nobody owns it then.
    pub fn compile(gl_id: GlId, shader_source: &ShaderSource, calls: &mut Vec<GlCall>) -> (result:
        ReglResult<Vec<u8>>)
        ensures
            match result {
                Ok(c_source) => {
                    &&& nul_free(shader_source.1.spec_bytes())
                    &&& c_source@ == shader_source.1.spec_bytes().push(0)
                    &&& final(calls)@ == old(calls)@.push(
                        GlCall::ShaderSource {
                            shader: gl_id,
                            length: shader_source.1.spec_bytes().len() as GLint,
                        },
                    ).push(GlCall::CompileShader { shader: gl_id })
                },
                Err(ReglError::NulError(position)) => {
                    &&& is_first_nul(shader_source.1.spec_bytes(), position as int)
                    &&& final(calls)@ == old(calls)@ + calls_if(
                        gl_id != 0,
                        GlCall::DeleteShader { shader: gl_id },
                    )
                },
                Err(_) => false,
            },
    {
        match add_shader_source(gl_id, shader_source.1, calls) {
            Ok(c_source) => {
                calls.push(GlCall::CompileShader { shader: gl_id });
                Ok(c_source)
            },
            Err(error) => {
                push_if(gl_id != 0, GlCall::DeleteShader { shader: gl_id }, calls);
                Err(error)
            },
        }
    }

    /// Takes over the hardware shader `gl_id` after its compilation, of which
    /// the caller has read the status and the log. Where the context validates
    /// shaders, one that did not compile is refused, with the log as the
    /// reason, and the hardware's shader is deleted, since nobody owns it then.
    pub fn new<C: ShaderCreationSupport>(
        support: &mut C,
        gl_id: GlId,
        compile_status: GLint,
        info_log: String,
        calls: &mut Vec<GlCall>,
    ) -> (result: ReglResult<Shader>)
        ensures
            *final(support) == *old(support),
            match result {
                Ok(shader) => {
                    &&& shader.handle() == gl_id
                    &&& !(old(support).validates_compilation() && compile_status == 0)
                    &&& final(calls)@ == old(calls)@
                },
                Err(ReglError::ShaderCompilationError(log)) => {
                    &&& log == info_log
                    &&& old(support).validates_compilation()
                    &&& compile_status == 0
                    &&& final(calls)@ == old(calls)@ + calls_if(
                        gl_id != 0,
                        GlCall::DeleteShader { shader: gl_id },
                    )
                },
                Err(_) => false,
            },
    {
        if support.validate_after_compilation() && !compiled(compile_status) {
            push_if(gl_id != 0, GlCall::DeleteShader { shader: gl_id }, calls);
            return Err(ReglError::ShaderCompilationError(info_log));
        }
        Ok(Shader { gl_id })
    }

    /// The calls by which the shader is given up: the hardware's shader is
    /// deleted, unless the shader never got one and has the name 0.
    pub open spec fn delete_calls(&self) -> Seq<GlCall> {
        calls_if(self.handle() != 0, GlCall::DeleteShader { shader: self.handle() })
    }

    /// Gives the shader up.
    pub fn delete(self, calls: &mut Vec<GlCall>)
        ensures
            final(calls)@ == old(calls)@ + self.delete_calls(),
    {
        push_if(self.gl_id != 0, GlCall::DeleteShader { shader: self.gl_id }, calls);
    }
}

impl InternalShader for Shader {
    closed spec fn handle(&self) -> GlId {
        self.gl_id
    }

    fn gl_id(&self) -> (gl_id: GlId) {
        self.gl_id
    }
}

/// Hands `source` to the hardware shader `gl_id`. Returns the source as the C
/// string that goes with the call.
pub fn add_shader_source(gl_id: GlId, source: &str, calls: &mut Vec<GlCall>) -> (result: ReglResult<
    Vec<u8>,
>)
    ensures
        match result {
            Ok(c_source) => {
                &&& nul_free(source.spec_bytes())
                &&& c_source@ == source.spec_bytes().push(0)
                &&& final(calls)@ == old(calls)@.push(
                    GlCall::ShaderSource {
                        shader: gl_id,
                        length: source.spec_bytes().len() as GLint,
                    },
                )
            },
            Err(ReglError::NulError(position)) => {
                &&& is_first_nul(source.spec_bytes(), position as int)
                &&& final(calls)@ == old(calls)@
            },
            Err(_) => false,
        },
{
    let c_source = c_string(source)?;
    let len: GLint = #[verifier::truncate] ((c_source.len() - 1) as GLint);
    calls.push(GlCall::ShaderSource { shader: gl_id, length: len });
    Ok(c_source)
}

/// Whether a compile status that the hardware reports says that the shader compiled.
pub fn compiled(compile_status: GLint) -> (compiled: bool)
    ensures
        compiled == (compile_status != 0),
{
    compile_status != 0
}

/// The hardware's code for the stage of a shader.
pub fn gl_shader_type(shader_type: ShaderType) -> (code: GLenum)
    ensures
        code == shader_type.code(),
{
    match shader_type {
        ShaderType::VertexShader => VERTEX_SHADER,
        ShaderType::FragmentShader => FRAGMENT_SHADER,
    }
}

} // verus!
