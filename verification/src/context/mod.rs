//! The rendering context: the owner of the registry, of the identity generator
//! and of the default objects, and the place where draw calls are made.

use vstd::prelude::*;
use std::rc::Rc;
use gl::types::{GLenum, GLint, GLsizei};
use crate::buffer::{release_all_calls, BufferCreationSupport};
use crate::call::GlCall;
use crate::framebuffer::{create_default_framebuffer, Framebuffer, FramebufferInternal};
use crate::glenum::{TRIANGLES, UNSIGNED_BYTE, UNSIGNED_INT, UNSIGNED_SHORT};
use crate::id::{GenerateId, Id, IdGenerator};
use crate::options::{self, RenderOption};
use crate::program::{Program, ProgramCreationSupport, ProgramInternal};
use crate::resource::{share, ResourceCreationSupport};
use crate::shader::ShaderCreationSupport;
use crate::tracker::Bindings;
use crate::vertex_array::{create_default_vertex_array, VertexArray, VertexArrayInternal};
use self::shared::{no_bindings, SharedContext};

pub mod shared;

verus! {

/// How the vertices of a draw call make up shapes.
#[derive(Debug, Clone, Copy, PartialEq, Eq, Structural)]
pub enum PrimitiveMode {
    Triangles,
}

/// The type of the indices of an indexed draw call.
#[derive(Debug, Clone, Copy, PartialEq, Eq, Structural)]
pub enum IndexType {
    UByte,
    UShort,
    UInt,
}

impl PrimitiveMode {
    /// The hardware's code for the mode.
    pub open spec fn code(self) -> GLenum {
        match self {
            PrimitiveMode::Triangles => TRIANGLES,
        }
    }
}

impl IndexType {
    /// The hardware's code for the type.
    pub open spec fn code(self) -> GLenum {
        match self {
            IndexType::UByte => UNSIGNED_BYTE,
            IndexType::UShort => UNSIGNED_SHORT,
            IndexType::UInt => UNSIGNED_INT,
        }
    }
}

/// A rendering context. There is one for each context of the hardware, and all
/// resources that are used together are created under the same one.
pub struct Context {
    id_gen: IdGenerator,
    shared_context: SharedContext,
    defaults: DefaultObjects,
    validate_shaders: bool,
}

/// The two objects that the hardware provides without being asked: the
/// framebuffer of the window and the vertex array that is there from the start.
struct DefaultObjects {
    framebuffer: Rc<Framebuffer>,
    vertex_array: Rc<VertexArray>,
}

impl DefaultObjects {
    #[verifier::type_invariant]
    closed spec fn provided_by_hardware(&self) -> bool {
        &&& self.framebuffer.handle() == 0
        &&& self.vertex_array.is_default()
    }
}

/// The bindings after a draw call with these three objects, from `before`.
pub open spec fn draw_bound(
    program: &Program,
    target: &Framebuffer,
    vertex_array: &VertexArray,
    before: Bindings,
) -> Bindings {
    vertex_array.bound(target.bound(program.bound(before)))
}

/// The calls that make the three objects of a draw call current under the
/// bindings `before`: the program first, then the framebuffer, then the vertex
/// array.
pub open spec fn draw_bind_calls(
    program: &Program,
    target: &Framebuffer,
    vertex_array: &VertexArray,
    before: Bindings,
) -> Seq<GlCall> {
    program.bind_calls(before) + target.bind_calls(program.bound(before))
        + vertex_array.bind_calls(target.bound(program.bound(before)))
}

impl Context {
    /// The framebuffer of the window.
    pub closed spec fn spec_default_framebuffer(&self) -> Rc<Framebuffer> {
        self.defaults.framebuffer
    }

    /// Whether shaders and programs that the hardware refuses are refused here.
    pub closed spec fn validates(&self) -> bool {
        self.validate_shaders
    }

    /// A context for hardware that keeps the index buffer binding as part of the
    /// vertex array. Its two default objects get the first two identities, and
    /// the default vertex array is made current.
    pub fn new(calls: &mut Vec<GlCall>) -> (context: Context)
        ensures
            context.is_new(false),
            final(calls)@ == old(calls)@ + context.default_vertex_array().bind_calls(
                no_bindings(false),
            ),
    {
        Context::with_ibo_binding(false, calls)
    }

    /// A context for hardware of which `separate_ibo_binding` says whether it
    /// keeps the index buffer binding apart from the vertex array.
    pub fn with_ibo_binding(separate_ibo_binding: bool, calls: &mut Vec<GlCall>) -> (context:
        Context)
        ensures
            context.is_new(separate_ibo_binding),
            final(calls)@ == old(calls)@ + context.default_vertex_array().bind_calls(
                no_bindings(separate_ibo_binding),
            ),
    {
        let mut booter = ContextBooter {
            id_gen: IdGenerator::new(),
            shared_context: SharedContext::new(separate_ibo_binding),
        };
        let default_framebuffer = Rc::new(create_default_framebuffer(&mut booter));
        let default_vertex_array = Rc::new(
            create_default_vertex_array(&mut booter, calls).unwrap(),
        );
        Context {
            id_gen: booter.id_gen,
            shared_context: booter.shared_context,
            defaults: DefaultObjects {
                framebuffer: default_framebuffer,
                vertex_array: default_vertex_array,
            },
            validate_shaders: true,
        }
    }

    /// What holds of a context that was just made: the framebuffer of the window
    /// has the identity 1, the default vertex array the identity 2, and the
    /// default vertex array is what the registry takes to be current.
    pub open spec fn is_new(&self, separate_ibo_binding: bool) -> bool {
        &&& self.id_generator()@ == 2
        &&& self.spec_default_framebuffer().id() == 1
        &&& self.spec_default_framebuffer().handle() == 0
        &&& self.default_vertex_array().id() == 2
        &&& self.default_vertex_array().is_default()
        &&& self.validates()
        &&& self.shared_context()@ == self.default_vertex_array().bound(
            no_bindings(separate_ibo_binding),
        )
    }

    /// Whether the context has an identity left for another resource.
    pub fn can_create(&self) -> (can: bool)
        ensures
            can == self.id_generator().can_generate(),
    {
        self.id_gen.has_next()
    }

    /// The framebuffer of the window, as another owner of it: so it can be
    /// handed to a draw call of this context.
    pub fn default_framebuffer(&self) -> (framebuffer: Rc<Framebuffer>)
        ensures
            framebuffer == self.spec_default_framebuffer(),
    {
        share(&self.defaults.framebuffer)
    }

    /// Says whether shaders that the hardware does not compile, and programs
    /// that it does not link, are to be refused from now on. A new context
    /// refuses them.
    pub fn validate_shaders(&mut self, validate: bool)
        ensures
            final(self).validates() == validate,
            final(self).id_generator() == old(self).id_generator(),
            final(self).shared_context() == old(self).shared_context(),
            final(self).default_vertex_array() == old(self).default_vertex_array(),
            final(self).spec_default_framebuffer() == old(self).spec_default_framebuffer(),
    {
        self.validate_shaders = validate;
    }

    /// Sets a switch of the rendering pipeline.
    pub fn set_option(&self, option: RenderOption, calls: &mut Vec<GlCall>)
        ensures
            final(calls)@ == old(calls)@.push(option.call()),
    {
        options::set_option(option, calls)
    }

    /// Sets the rectangle of the window that is rendered into.
    pub fn viewport(&self, x: i32, y: i32, width: i32, height: i32, calls: &mut Vec<GlCall>)
        ensures
            final(calls)@ == old(calls)@.push(GlCall::Viewport { x, y, width, height }),
    {
        calls.push(GlCall::Viewport { x, y, width, height });
    }

    /// Draws `count` vertices of `vertex_array` from `first_vertex` on with
    /// `program` into `target`. The three are made current first, each by the
    /// calls that the registry finds needed.
    pub fn draw(
        &mut self,
        program: &Program,
        target: &Framebuffer,
        vertex_array: &VertexArray,
        mode: PrimitiveMode,
        first_vertex: u32,
        count: u32,
        calls: &mut Vec<GlCall>,
    )
        ensures
            *final(self) == old(self).with_shared_context(final(self).shared_context()),
            final(self).shared_context()@ == draw_bound(
                program,
                target,
                vertex_array,
                old(self).shared_context()@,
            ),
            final(calls)@ == (old(calls)@ + draw_bind_calls(
                program,
                target,
                vertex_array,
                old(self).shared_context()@,
            )).push(
                GlCall::DrawArrays {
                    mode: mode.code(),
                    first: first_vertex as GLint,
                    count: count as GLsizei,
                },
            ),
    {
        program.bind(&mut self.shared_context, calls);
        target.bind(&mut self.shared_context, calls);
        vertex_array.bind(&mut self.shared_context, calls);
        calls.push(
            GlCall::DrawArrays {
                mode: gl_mode(mode),
                first: #[verifier::truncate] (first_vertex as GLint),
                count: #[verifier::truncate] (count as GLsizei),
            },
        );
    }

    /// Draws `count` vertices of `vertex_array` that its index buffer picks,
    /// from the byte `index_offset` of the index buffer on, with `base_vertex`
    /// added to each index.
    pub fn draw_indexed(
        &mut self,
        program: &Program,
        target: &Framebuffer,
        vertex_array: &VertexArray,
        mode: PrimitiveMode,
        index_type: IndexType,
        base_vertex: u32,
        count: u32,
        index_offset: usize,
        calls: &mut Vec<GlCall>,
    )
        ensures
            *final(self) == old(self).with_shared_context(final(self).shared_context()),
            final(self).shared_context()@ == draw_bound(
                program,
                target,
                vertex_array,
                old(self).shared_context()@,
            ),
            final(calls)@ == (old(calls)@ + draw_bind_calls(
                program,
                target,
                vertex_array,
                old(self).shared_context()@,
            )).push(
                GlCall::DrawElementsBaseVertex {
                    mode: mode.code(),
                    count: count as GLsizei,
                    type_: index_type.code(),
                    indices: index_offset,
                    basevertex: base_vertex as GLint,
                },
            ),
    {
        program.bind(&mut self.shared_context, calls);
        target.bind(&mut self.shared_context, calls);
        vertex_array.bind(&mut self.shared_context, calls);
        calls.push(
            GlCall::DrawElementsBaseVertex {
                mode: gl_mode(mode),
                count: #[verifier::truncate] (count as GLsizei),
                type_: gl_type(index_type),
                indices: index_offset,
                basevertex: #[verifier::truncate] (base_vertex as GLint),
            },
        );
    }

    /// Gives the context up with its default objects. Neither has a hardware
    /// object of its own to delete, so no call is made. A default object that
    /// someone else still holds lives on there.
    pub fn delete(self, calls: &mut Vec<GlCall>)
        ensures
            final(calls)@ == old(calls)@,
    {
        let Context { id_gen, shared_context, defaults, validate_shaders } = self;
        proof {
            use_type_invariant(&defaults);
        }
        let DefaultObjects { framebuffer, vertex_array } = defaults;
        match Rc::try_unwrap(framebuffer) {
            Ok(framebuffer) => {
                framebuffer.delete(calls);
            },
            Err(_) => {},
        }
        assert(calls@ =~= old(calls)@);
        match Rc::try_unwrap(vertex_array) {
            Ok(vertex_array) => {
                assert(vertex_array.owned_buffers() =~= Seq::empty());
                vertex_array.delete(calls);
                assert forall|last_owner: Seq<bool>|
                    #[trigger] release_all_calls(vertex_array.owned_buffers(), last_owner)
                        =~= Seq::empty() by {}
                assert(calls@ =~= old(calls)@);
            },
            Err(_) => {},
        }
    }

    /// What the creation of resources leaves of a context: with another
    /// generator and another registry in their places, the default objects and
    /// the validation of shaders are what they were.
    pub proof fn lemma_creation_keeps_the_rest(&self, generator: IdGenerator, shared_context: SharedContext)
        ensures
            self.with_id_generator(generator).id_generator() == generator,
            self.with_id_generator(generator).shared_context() == self.shared_context(),
            self.with_id_generator(generator).default_vertex_array() == self.default_vertex_array(),
            self.with_id_generator(generator).spec_default_framebuffer()
                == self.spec_default_framebuffer(),
            self.with_id_generator(generator).validates() == self.validates(),
            self.with_shared_context(shared_context).shared_context() == shared_context,
            self.with_shared_context(shared_context).id_generator() == self.id_generator(),
            self.with_shared_context(shared_context).default_vertex_array()
                == self.default_vertex_array(),
            self.with_shared_context(shared_context).spec_default_framebuffer()
                == self.spec_default_framebuffer(),
            self.with_shared_context(shared_context).validates() == self.validates(),
            self.with_id_generator(generator).with_shared_context(shared_context).id_generator()
                == generator,
            self.with_id_generator(generator).with_shared_context(
                shared_context,
            ).shared_context() == shared_context,
            self.with_id_generator(generator).with_shared_context(
                shared_context,
            ).default_vertex_array() == self.default_vertex_array(),
            self.with_id_generator(generator).with_shared_context(
                shared_context,
            ).spec_default_framebuffer() == self.spec_default_framebuffer(),
            self.with_id_generator(generator).with_shared_context(shared_context).validates()
                == self.validates(),
    {
    }
}

/// The hardware's code for a primitive mode.
pub fn gl_mode(mode: PrimitiveMode) -> (code: GLenum)
    ensures
        code == mode.code(),
{
    match mode {
        PrimitiveMode::Triangles => TRIANGLES,
    }
}

/// The hardware's code for a type of indices.
pub fn gl_type(index_type: IndexType) -> (code: GLenum)
    ensures
        code == index_type.code(),
{
    match index_type {
        IndexType::UByte => UNSIGNED_BYTE,
        IndexType::UShort => UNSIGNED_SHORT,
        IndexType::UInt => UNSIGNED_INT,
    }
}

impl GenerateId for Context {
    closed spec fn id_generator(&self) -> IdGenerator {
        self.id_gen
    }

    closed spec fn with_id_generator(&self, generator: IdGenerator) -> Context {
        Context { id_gen: generator, ..*self }
    }

    fn generate_id(&mut self) -> (id: Id) {
        self.id_gen.generate_id()
    }
}

impl ResourceCreationSupport for Context {
    closed spec fn shared_context(&self) -> SharedContext {
        self.shared_context
    }

    closed spec fn with_shared_context(&self, shared_context: SharedContext) -> Context {
        Context { shared_context, ..*self }
    }

    proof fn lemma_generator_apart_from_registry(&self, generator: IdGenerator) {
    }

    fn get_shared_context(&mut self) -> (shared_context: &mut SharedContext) {
        &mut self.shared_context
    }
}

impl BufferCreationSupport for Context {
    closed spec fn default_vertex_array(&self) -> Rc<VertexArray> {
        self.defaults.vertex_array
    }

    fn get_default_vertex_array(&mut self) -> (vertex_array: Rc<VertexArray>) {
        share(&self.defaults.vertex_array)
    }
}

impl ProgramCreationSupport for Context {
    open spec fn validates_linking(&self) -> bool {
        self.validates()
    }

    fn validate_after_linking(&self) -> (validate: bool) {
        self.validate_shaders
    }
}

impl ShaderCreationSupport for Context {
    open spec fn validates_compilation(&self) -> bool {
        self.validates()
    }

    fn validate_after_compilation(&self) -> (validate: bool) {
        self.validate_shaders
    }
}

/// What there is of a context while its default objects are being made.
struct ContextBooter {
    id_gen: IdGenerator,
    shared_context: SharedContext,
}

impl GenerateId for ContextBooter {
    closed spec fn id_generator(&self) -> IdGenerator {
        self.id_gen
    }

    closed spec fn with_id_generator(&self, generator: IdGenerator) -> ContextBooter {
        ContextBooter { id_gen: generator, ..*self }
    }

    fn generate_id(&mut self) -> (id: Id) {
        self.id_gen.generate_id()
    }
}

impl ResourceCreationSupport for ContextBooter {
    closed spec fn shared_context(&self) -> SharedContext {
        self.shared_context
    }

    closed spec fn with_shared_context(&self, shared_context: SharedContext) -> ContextBooter {
        ContextBooter { shared_context, ..*self }
    }

    proof fn lemma_generator_apart_from_registry(&self, generator: IdGenerator) {
    }

    fn get_shared_context(&mut self) -> (shared_context: &mut SharedContext) {
        &mut self.shared_context
    }
}

} // verus!
