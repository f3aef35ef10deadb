//! Shader programs.

use vstd::prelude::*;
use gl::types::GLint;
use crate::call::{calls_if, push_if, GlCall};
use crate::error::ReglError;
use crate::id::{GenerateId, Id};
use crate::resource::ResourceCreationSupport;
use crate::shader::{InternalShader, Shader};
use crate::tracker::{BindIf, Bindings, Slot, SlotTag};
use crate::GlId;
use crate::ReglResult;

pub mod attribute;
pub mod uniform;

pub use self::attribute::{AttributeInfo, ShaderAttribute, ShaderAttributeType};
pub use self::uniform::{BlockUniform, InterfaceBlock, Uniform, UniformInfo, UniformType};

verus! {

/// A context under which programs are created.
pub trait ProgramCreationSupport: ResourceCreationSupport {
    /// Whether a program that the hardware did not link is refused.
    spec fn validates_linking(&self) -> bool;

    /// Whether a program that the hardware did not link is refused.
    fn validate_after_linking(&self) -> (validate: bool)
        ensures
            validate == self.validates_linking(),
    ;
}

/// The right that a program needs in a registry: to bind to the binding point
/// for programs.
pub trait ProgramSupport: BindIf<Program> {

}

/// What the library itself does with a program, and its users do not.
pub trait ProgramInternal {
    /// The bindings after the program was made current, from `before`.
    spec fn bound(&self, before: Bindings) -> Bindings;

    /// The calls that make the program current under the bindings `before`.
    spec fn bind_calls(&self, before: Bindings) -> Seq<GlCall>;

    /// Makes the program the one that draw calls run.
    fn bind<S: ProgramSupport>(&self, support: &mut S, calls: &mut Vec<GlCall>)
        ensures
            final(support)@ == self.bound(old(support)@),
            final(calls)@ == old(calls)@ + self.bind_calls(old(support)@),
    ;
}

/// A linked program of the hardware.
#[derive(Debug)]
pub struct Program {
    uid: Id,
    gl_id: GlId,
}

impl SlotTag for Program {
    open spec fn slot() -> Slot {
        Slot::Program
    }
}

/// The calls that attach `shaders`, in their order, to the program `gl_id`.
pub open spec fn attach_calls(gl_id: GlId, shaders: Seq<&Shader>) -> Seq<GlCall> {
    Seq::new(
        shaders.len(),
        |i: int| GlCall::AttachShader { program: gl_id, shader: shaders[i].handle() },
    )
}

/// What a uniform setter of a program leaves behind: the program is current,
/// and the setter has done what `decision` says.
pub open spec fn uniform_set(
    program: &Program,
    decision: Result<GlCall, ReglError>,
    result: ReglResult<()>,
    before: Seq<GlCall>,
    after: Seq<GlCall>,
    bindings: Bindings,
) -> bool {
    uniform::issued(decision, result, before + program.bind_calls(bindings), after)
}

impl Program {
    /// The number of the program's identity.
    pub closed spec fn id(&self) -> nat {
        self.uid@
    }

    /// The name that the hardware knows the program by.
    pub closed spec fn handle(&self) -> GlId {
        self.gl_id
    }

    /// The call that binds the program.
    pub open spec fn bind_call(&self) -> GlCall {
        GlCall::UseProgram { program: self.handle() }
    }

    /// The identity of the program.
    pub fn get_id(&self) -> (uid: &Id)
        ensures
            uid@ == self.id(),
    {
        &self.uid
    }

    /// Attaches `shaders` to the hardware program `gl_id`, which the caller has
    /// just had created, and has it linked.
    pub fn link(gl_id: GlId, shaders: &[&Shader], calls: &mut Vec<GlCall>)
        ensures
            final(calls)@ == (old(calls)@ + attach_calls(gl_id, shaders@)).push(
                GlCall::LinkProgram { program: gl_id },
            ),
    {
        let mut i: usize = 0;
        while i < shaders.len()
            invariant
                i <= shaders@.len(),
                calls@ == old(calls)@ + attach_calls(gl_id, shaders@.take(i as int)),
            decreases shaders@.len() - i,
        {
            calls.push(GlCall::AttachShader { program: gl_id, shader: shaders[i].gl_id() });
            assert(calls@ =~= old(calls)@ + attach_calls(gl_id, shaders@.take(i + 1)));
            i += 1;
        }
        assert(shaders@.take(i as int) =~= shaders@);
        calls.push(GlCall::LinkProgram { program: gl_id });
    }

    /// Takes over the hardware program `gl_id` after its linking, of which the
    /// caller has read the status and the log. Where the context validates
    /// programs, one that did not link is refused, with the log as the reason:
    /// no identity is spent on it, and the hardware's program is deleted, since
    /// nobody owns it then.
    pub fn new<C: ProgramCreationSupport>(
        support: &mut C,
        gl_id: GlId,
        link_status: GLint,
        info_log: String,
        calls: &mut Vec<GlCall>,
    ) -> (result: ReglResult<Program>)
        requires
            old(support).id_generator().can_generate() || (old(support).validates_linking()
                && link_status == 0),
        ensures
            match result {
                Ok(program) => {
                    &&& !(old(support).validates_linking() && link_status == 0)
                    &&& program.id() == old(support).id_generator()@ + 1
                    &&& program.handle() == gl_id
                    &&& final(support).id_generator()@ == old(support).id_generator()@ + 1
                    &&& *final(support) == old(support).with_id_generator(
                        final(support).id_generator(),
                    )
                    &&& final(calls)@ == old(calls)@
                },
                Err(ReglError::ProgramLinkingError(log)) => {
                    &&& log == info_log
                    &&& old(support).validates_linking()
                    &&& link_status == 0
                    &&& *final(support) == *old(support)
                    &&& final(calls)@ == old(calls)@ + calls_if(
                        gl_id != 0,
                        GlCall::DeleteProgram { program: gl_id },
                    )
                },
                Err(_) => false,
            },
    {
        if support.validate_after_linking() && !linked(link_status) {
            push_if(gl_id != 0, GlCall::DeleteProgram { program: gl_id }, calls);
            return Err(ReglError::ProgramLinkingError(info_log));
        }
        Ok(Program { uid: support.generate_id(), gl_id })
    }

    /// Sets `count` elements of the uniform at `location` from `value_count`
    /// floats of the caller. The program is made current first, also where the
    /// values are refused then.
    pub fn uniform_f32<S: ProgramSupport>(
        &self,
        support: &mut S,
        location: i32,
        uniform_type: UniformType,
        count: u32,
        value_count: usize,
        calls: &mut Vec<GlCall>,
    ) -> (result: ReglResult<()>)
        ensures
            final(support)@ == self.bound(old(support)@),
            uniform_set(
                self,
                uniform::spec_uniform_value_f32(location, uniform_type, count, value_count as nat),
                result,
                old(calls)@,
                final(calls)@,
                old(support)@,
            ),
    {
        self.bind(support, calls);
        uniform::uniform_value_f32(location, uniform_type, count, value_count, calls)
    }

    /// Sets `count` elements of the uniform at `location` from unsigned integers.
    /// The program is made current first, also where the values are refused then.
    pub fn uniform_u32<S: ProgramSupport>(
        &self,
        support: &mut S,
        location: i32,
        uniform_type: UniformType,
        count: u32,
        values: &[u32],
        calls: &mut Vec<GlCall>,
    ) -> (result: ReglResult<()>)
        ensures
            final(support)@ == self.bound(old(support)@),
            uniform_set(
                self,
                uniform::spec_uniform_value_u32(location, uniform_type, count, values@.len()),
                result,
                old(calls)@,
                final(calls)@,
                old(support)@,
            ),
    {
        self.bind(support, calls);
        uniform::uniform_value_u32(location, uniform_type, count, values, calls)
    }

    /// Sets `count` elements of the uniform at `location` from signed integers.
    /// The program is made current first, also where the values are refused then.
    pub fn uniform_i32<S: ProgramSupport>(
        &self,
        support: &mut S,
        location: i32,
        uniform_type: UniformType,
        count: u32,
        values: &[i32],
        calls: &mut Vec<GlCall>,
    ) -> (result: ReglResult<()>)
        ensures
            final(support)@ == self.bound(old(support)@),
            uniform_set(
                self,
                uniform::spec_uniform_value_i32(location, uniform_type, count, values@.len()),
                result,
                old(calls)@,
                final(calls)@,
                old(support)@,
            ),
    {
        self.bind(support, calls);
        uniform::uniform_value_i32(location, uniform_type, count, values, calls)
    }

    /// Sets `count` matrices of the uniform at `location` from `value_count`
    /// floats of the caller. The program is made current first, also where the
    /// values are refused then.
    pub fn uniform_matrix<S: ProgramSupport>(
        &self,
        support: &mut S,
        location: i32,
        uniform_type: UniformType,
        count: u32,
        value_count: usize,
        transpose: bool,
        calls: &mut Vec<GlCall>,
    ) -> (result: ReglResult<()>)
        ensures
            final(support)@ == self.bound(old(support)@),
            uniform_set(
                self,
                uniform::spec_uniform_value_matrix(
                    location,
                    uniform_type,
                    count,
                    value_count as nat,
                    transpose,
                ),
                result,
                old(calls)@,
                final(calls)@,
                old(support)@,
            ),
    {
        self.bind(support, calls);
        uniform::uniform_value_matrix(location, uniform_type, count, value_count, transpose, calls)
    }

    /// The calls by which the program is given up: the hardware's program is
    /// deleted, unless the program never got one and has the name 0.
    pub open spec fn delete_calls(&self) -> Seq<GlCall> {
        calls_if(self.handle() != 0, GlCall::DeleteProgram { program: self.handle() })
    }

    /// Gives the program up. The registry is left as it is: what it holds of
    /// this program can match no other, since no identity is issued twice.
    pub fn delete(self, calls: &mut Vec<GlCall>)
        ensures
            final(calls)@ == old(calls)@ + self.delete_calls(),
    {
        push_if(self.gl_id != 0, GlCall::DeleteProgram { program: self.gl_id }, calls);
    }

    fn gl_bind(&self) -> (call: GlCall)
        ensures
            call == self.bind_call(),
    {
        GlCall::UseProgram { program: self.gl_id }
    }
}

impl ProgramInternal for Program {
    open spec fn bound(&self, before: Bindings) -> Bindings {
        before.bind(Slot::Program, self.id())
    }

    open spec fn bind_calls(&self, before: Bindings) -> Seq<GlCall> {
        calls_if(before.needs_bind(Slot::Program, self.id()), self.bind_call())
    }

    fn bind<S: ProgramSupport>(&self, support: &mut S, calls: &mut Vec<GlCall>) {
        let bind = support.bind_if(&self.uid);
        push_if(bind, self.gl_bind(), calls);
    }
}

/// Whether a link status that the hardware reports says that the program linked.
pub fn linked(link_status: GLint) -> (linked: bool)
    ensures
        linked == (link_status != 0),
{
    link_status != 0
}

} // verus!
