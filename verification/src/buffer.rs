//! Buffers: blocks of hardware memory that hold vertex data, indices or uniforms.

use vstd::prelude::*;
use vstd::layout::size_of;
use std::rc::Rc;
use gl::types::{GLenum, GLintptr, GLsizeiptr};
use crate::call::{calls_if, push_if, GlCall};
use crate::error::ReglError;
use crate::glenum::{
    ARRAY_BUFFER, DYNAMIC_COPY, DYNAMIC_DRAW, DYNAMIC_READ, ELEMENT_ARRAY_BUFFER, STATIC_COPY,
    STATIC_DRAW, STATIC_READ, STREAM_COPY, STREAM_DRAW, STREAM_READ, UNIFORM_BUFFER,
};
use crate::id::{GenerateId, Id};
use crate::resource::{created, share, ResourceCreationSupport};
use crate::tracker::{BindIf, Bindings, Slot, SlotTag};
use crate::vertex_array::{bind_vertex_array, VertexArray, VertexArrayInternal, VertexArraySupport};
use crate::GlId;
use crate::ReglResult;

verus! {

/// A context under which buffers are created.
pub trait BufferCreationSupport: ResourceCreationSupport {
    /// The vertex array that is bound while an index buffer is filled.
    spec fn default_vertex_array(&self) -> Rc<VertexArray>;

    /// Another owner of the default vertex array. The context stays as it is.
    fn get_default_vertex_array(&mut self) -> (vertex_array: Rc<VertexArray>)
        ensures
            vertex_array == old(self).default_vertex_array(),
            *final(self) == *old(self),
    ;
}

/// The rights that a buffer needs in a registry: to bind to the three binding
/// points for buffers.
pub trait BufferSupport: BindIf<VertexBufferTag> + BindIf<IndexBufferTag> + BindIf<
    UniformBufferTag,
> {

}

/// A resource whose data can be overwritten.
pub trait UpdateBuffer {

}

/// Names the binding point for buffers of vertex data.
#[allow(dead_code)]
pub struct VertexBufferTag;

/// Names the binding point for buffers of indices.
#[allow(dead_code)]
pub struct IndexBufferTag;

/// Names the binding point for buffers of uniforms.
#[allow(dead_code)]
pub struct UniformBufferTag;

impl SlotTag for VertexBufferTag {
    open spec fn slot() -> Slot {
        Slot::VertexBuffer
    }
}

impl SlotTag for IndexBufferTag {
    open spec fn slot() -> Slot {
        Slot::IndexBuffer
    }
}

impl SlotTag for UniformBufferTag {
    open spec fn slot() -> Slot {
        Slot::UniformBuffer
    }
}

/// What a buffer is used as.
#[derive(Debug, Clone, Copy, PartialEq, Eq, Structural)]
pub enum BufferTarget {
    VertexBuffer,
    IndexBuffer,
    UniformBuffer,
}

/// How often a buffer's data is written, and what reads it.
#[derive(Debug, Clone, Copy, PartialEq, Eq, Structural)]
pub enum BufferUsage {
    StreamDraw,
    StreamRead,
    StreamCopy,
    StaticDraw,
    StaticRead,
    StaticCopy,
    DynamicDraw,
    DynamicRead,
    DynamicCopy,
}

impl BufferTarget {
    /// The binding point of buffers with this use.
    pub open spec fn slot(self) -> Slot {
        match self {
            BufferTarget::VertexBuffer => Slot::VertexBuffer,
            BufferTarget::IndexBuffer => Slot::IndexBuffer,
            BufferTarget::UniformBuffer => Slot::UniformBuffer,
        }
    }

    /// The hardware's code for the binding point.
    pub open spec fn code(self) -> GLenum {
        match self {
            BufferTarget::VertexBuffer => ARRAY_BUFFER,
            BufferTarget::IndexBuffer => ELEMENT_ARRAY_BUFFER,
            BufferTarget::UniformBuffer => UNIFORM_BUFFER,
        }
    }
}

impl BufferUsage {
    /// The hardware's code for the usage hint.
    pub open spec fn code(self) -> GLenum {
        match self {
            BufferUsage::StreamDraw => STREAM_DRAW,
            BufferUsage::StreamRead => STREAM_READ,
            BufferUsage::StreamCopy => STREAM_COPY,
            BufferUsage::StaticDraw => STATIC_DRAW,
            BufferUsage::StaticRead => STATIC_READ,
            BufferUsage::StaticCopy => STATIC_COPY,
            BufferUsage::DynamicDraw => DYNAMIC_DRAW,
            BufferUsage::DynamicRead => DYNAMIC_READ,
            BufferUsage::DynamicCopy => DYNAMIC_COPY,
        }
    }
}

/// A buffer of the hardware, with what the library knows of it. The size is
/// that of the data it was created with, for good.
#[derive(Debug)]
pub struct BaseBuffer {
    uid: Id,
    gl_id: GlId,
    target: BufferTarget,
    usage: BufferUsage,
    default_vertex_array: Rc<VertexArray>,
    data_len: usize,
}

impl BaseBuffer {
    #[verifier::type_invariant]
    closed spec fn well_formed(&self) -> bool {
        self.data_len <= isize::MAX
    }

    /// The number of the buffer's identity.
    pub closed spec fn id(&self) -> nat {
        self.uid@
    }

    /// The name that the hardware knows the buffer by.
    pub closed spec fn handle(&self) -> GlId {
        self.gl_id
    }

    /// What the buffer is used as.
    pub closed spec fn target(&self) -> BufferTarget {
        self.target
    }

    /// The usage hint that the buffer was created with.
    pub closed spec fn usage(&self) -> BufferUsage {
        self.usage
    }

    /// The size of the buffer in bytes.
    pub closed spec fn capacity(&self) -> nat {
        self.data_len as nat
    }

    /// The vertex array that is bound while the buffer is filled as an index buffer.
    pub closed spec fn default_vertex_array(&self) -> Rc<VertexArray> {
        self.default_vertex_array
    }

    /// The call that binds the buffer to the binding point of `target`.
    pub open spec fn bind_call(&self, target: BufferTarget) -> GlCall {
        GlCall::BindBuffer { target: target.code(), buffer: self.handle() }
    }

    /// The calls by which `bind_target` makes the buffer current for `target`
    /// under the bindings `before`: the bind, unless the buffer is current.
    pub open spec fn bind_target_calls(&self, before: Bindings, target: BufferTarget) -> Seq<GlCall> {
        calls_if(before.needs_bind(target.slot(), self.id()), self.bind_call(target))
    }

    /// The bindings after the buffer was made current for the use it was
    /// created for, from `before`. For an index buffer, the default vertex array
    /// has become current first.
    pub open spec fn default_bound(&self, before: Bindings) -> Bindings {
        if self.target() == BufferTarget::IndexBuffer {
            self.default_vertex_array().bound(before).bind(Slot::IndexBuffer, self.id())
        } else {
            before.bind(self.target().slot(), self.id())
        }
    }

    /// The calls by which the buffer is made current for the use it was created
    /// for, under the bindings `before`.
    pub open spec fn bind_default_calls(&self, before: Bindings) -> Seq<GlCall> {
        if self.target() == BufferTarget::IndexBuffer {
            self.default_vertex_array().bind_calls(before) + self.bind_target_calls(
                self.default_vertex_array().bound(before),
                BufferTarget::IndexBuffer,
            )
        } else {
            self.bind_target_calls(before, self.target())
        }
    }

    /// The calls by which the buffer is given up: the hardware's buffer is
    /// deleted, unless the buffer never got one and has the name 0.
    pub open spec fn delete_calls(&self) -> Seq<GlCall> {
        calls_if(self.handle() != 0, GlCall::DeleteBuffers { buffer: self.handle() })
    }

    /// The identity of the buffer.
    pub fn get_id(&self) -> (uid: &Id)
        ensures
            uid@ == self.id(),
    {
        &self.uid
    }

    /// Makes the buffer current at the binding point of `target`.
    pub fn bind_target<S: BufferSupport>(
        &self,
        support: &mut S,
        target: BufferTarget,
        calls: &mut Vec<GlCall>,
    )
        ensures
            final(support)@ == old(support)@.bind(target.slot(), self.id()),
            final(calls)@ == old(calls)@ + self.bind_target_calls(old(support)@, target),
    {
        let bind = match target {
            BufferTarget::VertexBuffer => BindIf::<VertexBufferTag>::bind_if(support, &self.uid),
            BufferTarget::IndexBuffer => BindIf::<IndexBufferTag>::bind_if(support, &self.uid),
            BufferTarget::UniformBuffer => BindIf::<UniformBufferTag>::bind_if(support, &self.uid),
        };
        push_if(bind, self.gl_bind(target), calls);
    }

    /// Makes the buffer the current index buffer and binds it whether or not the
    /// registry took it to be current. A vertex array uses this to attach its
    /// index buffer to itself.
    pub fn bind_as_indices_anyway<S: BindIf<IndexBufferTag>>(
        &self,
        support: &mut S,
        calls: &mut Vec<GlCall>,
    )
        ensures
            final(support)@ == old(support)@.bind(Slot::IndexBuffer, self.id()),
            final(calls)@ == old(calls)@.push(self.bind_call(BufferTarget::IndexBuffer)),
    {
        let _ = BindIf::<IndexBufferTag>::bind_if(support, &self.uid);
        calls.push(self.gl_bind(BufferTarget::IndexBuffer));
    }

    /// Overwrites the bytes of the buffer from `byte_offset` on with `data`, which
    /// has to end where the buffer ends or before. The buffer is made current
    /// first. An update that does not fit changes nothing.
    pub fn update_data<S: BufferSupport + VertexArraySupport, T>(
        &self,
        support: &mut S,
        byte_offset: usize,
        data: &[T],
        calls: &mut Vec<GlCall>,
    ) -> (result: ReglResult<()>)
        ensures
            result is Ok <==> byte_offset + size_of::<T>() * data@.len() <= self.capacity(),
            result is Ok ==> {
                &&& final(support)@ == self.default_bound(old(support)@)
                &&& final(calls)@ == (old(calls)@ + self.bind_default_calls(old(support)@)).push(
                    GlCall::BufferSubData {
                        target: self.target().code(),
                        offset: byte_offset as GLintptr,
                        size: (size_of::<T>() * data@.len()) as GLsizeiptr,
                    },
                )
            },
            result is Err ==> {
                &&& result == Err::<(), ReglError>(ReglError::BufferDataOutOfRange)
                &&& final(support)@ == old(support)@
                &&& final(calls)@ == old(calls)@
            },
    {
        proof {
            use_type_invariant(self);
        }
        let data_len: usize = match len_in_bytes(data) {
            Some(data_len) => data_len,
            None => {
                return Err(ReglError::BufferDataOutOfRange);
            },
        };
        if data_len > self.data_len || byte_offset > self.data_len - data_len {
            return Err(ReglError::BufferDataOutOfRange);
        }
        self.bind_default(support, calls);
        calls.push(
            GlCall::BufferSubData {
                target: gl_target(self.target),
                offset: byte_offset as GLintptr,
                size: data_len as GLsizeiptr,
            },
        );
        Ok(())
    }

    fn bind_with_default_vao<S: BufferSupport + VertexArraySupport>(
        &self,
        support: &mut S,
        calls: &mut Vec<GlCall>,
    )
        ensures
            final(support)@ == self.default_vertex_array().bound(old(support)@).bind(
                Slot::IndexBuffer,
                self.id(),
            ),
            final(calls)@ == old(calls)@ + self.default_vertex_array().bind_calls(old(support)@)
                + self.bind_target_calls(
                self.default_vertex_array().bound(old(support)@),
                BufferTarget::IndexBuffer,
            ),
    {
        bind_vertex_array(&*self.default_vertex_array, support, calls);
        self.bind_target(support, BufferTarget::IndexBuffer, calls);
    }

    fn bind_default<S: BufferSupport + VertexArraySupport>(
        &self,
        support: &mut S,
        calls: &mut Vec<GlCall>,
    )
        ensures
            final(support)@ == self.default_bound(old(support)@),
            final(calls)@ == old(calls)@ + self.bind_default_calls(old(support)@),
    {
        if let BufferTarget::IndexBuffer = self.target {
            self.bind_with_default_vao(support, calls);
        } else {
            self.bind_target(support, self.target, calls);
        }
    }

    fn initial_data<S: BufferSupport + VertexArraySupport>(
        &self,
        support: &mut S,
        calls: &mut Vec<GlCall>,
    )
        ensures
            final(support)@ == self.default_bound(old(support)@),
            final(calls)@ == (old(calls)@ + self.bind_default_calls(old(support)@)).push(
                GlCall::BufferData {
                    target: self.target().code(),
                    size: self.capacity() as GLsizeiptr,
                    usage: self.usage().code(),
                },
            ),
    {
        proof {
            use_type_invariant(self);
        }
        self.bind_default(support, calls);
        calls.push(
            GlCall::BufferData {
                target: gl_target(self.target),
                size: self.data_len as GLsizeiptr,
                usage: gl_usage(self.usage),
            },
        );
    }

    /// Gives the buffer up. The registry is left as it is: what it holds of this
    /// buffer can match no other, since no identity is issued twice. The default
    /// vertex array stays with the context.
    pub fn delete(self, calls: &mut Vec<GlCall>)
        ensures
            final(calls)@ == old(calls)@ + self.delete_calls(),
    {
        push_if(self.gl_id != 0, GlCall::DeleteBuffers { buffer: self.gl_id }, calls);
    }

    fn gl_bind(&self, target: BufferTarget) -> (call: GlCall)
        ensures
            call == self.bind_call(target),
    {
        GlCall::BindBuffer { target: gl_target(target), buffer: self.gl_id }
    }
}

/// What giving up one share in a buffer comes to, once it is known whether the
/// share was the last: `Ok` holds the buffer that nobody else owns any more, `Err`
/// the share of a buffer that lives on.
pub open spec fn release_calls(last_owner: Result<BaseBuffer, Rc<BaseBuffer>>) -> Seq<GlCall> {
    match last_owner {
        Ok(base_buffer) => base_buffer.delete_calls(),
        Err(_) => Seq::empty(),
    }
}

/// Gives up one share in a buffer: the buffer is deleted where the share was
/// the last one, and lives on where it was not.
pub fn release(last_owner: Result<BaseBuffer, Rc<BaseBuffer>>, calls: &mut Vec<GlCall>)
    ensures
        final(calls)@ == old(calls)@ + release_calls(last_owner),
{
    match last_owner {
        Ok(base_buffer) => base_buffer.delete(calls),
        Err(_) => {
            assert(calls@ =~= old(calls)@ + Seq::<GlCall>::empty());
        },
    }
}

/// What giving up one share in each of `buffers` comes to, in their order, where
/// `last_owner` says of each share whether it was the last one in its buffer.
pub open spec fn release_all_calls(buffers: Seq<Rc<BaseBuffer>>, last_owner: Seq<bool>) -> Seq<
    GlCall,
>
    decreases buffers.len(),
{
    if buffers.len() == 0 {
        Seq::empty()
    } else {
        release_all_calls(buffers.drop_last(), last_owner.drop_last()) + if last_owner.last() {
            buffers.last().delete_calls()
        } else {
            Seq::empty()
        }
    }
}

/// Gives up the share `owner` in a buffer. Returns whether the share was the
/// last one, so that the buffer went with it.
pub fn release_share(owner: Rc<BaseBuffer>, calls: &mut Vec<GlCall>) -> (last_owner: bool)
    ensures
        final(calls)@ == old(calls)@ + if last_owner {
            owner.delete_calls()
        } else {
            Seq::empty()
        },
{
    match Rc::try_unwrap(owner) {
        Ok(base_buffer) => {
            release(Ok(base_buffer), calls);
            true
        },
        Err(shared) => {
            release(Err(shared), calls);
            false
        },
    }
}

/// A buffer as its creator holds it. A vertex array that uses the buffer owns it
/// too, so the hardware's buffer lives as long as either.
#[derive(Debug)]
pub struct Buffer {
    base_buffer: Rc<BaseBuffer>,
}

impl Buffer {
    /// The buffer that this one stands for.
    pub closed spec fn base(&self) -> Rc<BaseBuffer> {
        self.base_buffer
    }

    /// Takes over the hardware buffer `gl_id`, which the caller has just had
    /// generated, and fills it with `data`: the buffer is made current for
    /// `target`, and the data is sent. The size of `data` is the size of the
    /// buffer from then on.
    pub fn new<C: BufferCreationSupport, T>(
        support: &mut C,
        gl_id: GlId,
        target: BufferTarget,
        usage: BufferUsage,
        data: &[T],
        calls: &mut Vec<GlCall>,
    ) -> (result: ReglResult<Buffer>)
        requires
            old(support).id_generator().can_generate(),
            size_of::<T>() * data@.len() <= isize::MAX,
        ensures
            result matches Ok(buffer) && {
                &&& buffer.base().id() == old(support).id_generator()@ + 1
                &&& buffer.base().handle() == gl_id
                &&& buffer.base().target() == target
                &&& buffer.base().usage() == usage
                &&& buffer.base().capacity() == size_of::<T>() * data@.len()
                &&& buffer.base().default_vertex_array() == old(support).default_vertex_array()
                &&& created(
                    *old(support),
                    *final(support),
                    buffer.base().default_bound(old(support).shared_context()@),
                )
                &&& final(calls)@ == (old(calls)@ + buffer.base().bind_default_calls(
                    old(support).shared_context()@,
                )).push(
                    GlCall::BufferData {
                        target: target.code(),
                        size: (size_of::<T>() * data@.len()) as GLsizeiptr,
                        usage: usage.code(),
                    },
                )
            },
    {
        let ghost before = *support;
        let default_vertex_array = support.get_default_vertex_array();
        let uid = support.generate_id();
        let data_len: usize = len_in_bytes(data).unwrap();
        let base_buffer = BaseBuffer {
            uid,
            gl_id,
            target,
            usage,
            default_vertex_array,
            data_len,
        };
        proof {
            before.lemma_generator_apart_from_registry(support.id_generator());
        }
        let shared_context = support.get_shared_context();
        base_buffer.initial_data(shared_context, calls);
        Ok(Buffer { base_buffer: Rc::new(base_buffer) })
    }

    /// Gives up the creator's share in the buffer. The hardware's buffer is
    /// deleted unless a vertex array still uses it; then it goes with the last
    /// vertex array that does. Returns whether the share was the last one.
    pub fn delete(self, calls: &mut Vec<GlCall>) -> (deleted: bool)
        ensures
            final(calls)@ == old(calls)@ + if deleted {
                self.base().delete_calls()
            } else {
                Seq::empty()
            },
    {
        release_share(self.base_buffer, calls)
    }

    /// Overwrites the bytes of the buffer from `byte_offset` on with `data`.
    pub fn update_data<S: BufferSupport + VertexArraySupport, T>(
        &self,
        support: &mut S,
        byte_offset: usize,
        data: &[T],
        calls: &mut Vec<GlCall>,
    ) -> (result: ReglResult<()>)
        ensures
            result is Ok <==> byte_offset + size_of::<T>() * data@.len() <= self.base().capacity(),
            result is Ok ==> {
                &&& final(support)@ == self.base().default_bound(old(support)@)
                &&& final(calls)@ == (old(calls)@ + self.base().bind_default_calls(
                    old(support)@,
                )).push(
                    GlCall::BufferSubData {
                        target: self.base().target().code(),
                        offset: byte_offset as GLintptr,
                        size: (size_of::<T>() * data@.len()) as GLsizeiptr,
                    },
                )
            },
            result is Err ==> {
                &&& result == Err::<(), ReglError>(ReglError::BufferDataOutOfRange)
                &&& final(support)@ == old(support)@
                &&& final(calls)@ == old(calls)@
            },
    {
        self.base_buffer.update_data(support, byte_offset, data, calls)
    }
}

/// The buffer that `buffer` stands for, as its owners share it.
pub fn get_base_buffer(buffer: &Buffer) -> (base_buffer: &Rc<BaseBuffer>)
    ensures
        *base_buffer == buffer.base(),
{
    &buffer.base_buffer
}

impl UpdateBuffer for Buffer {

}

/// The size of `data` in bytes, where the hardware's type for sizes can hold it.
pub fn len_in_bytes<T>(data: &[T]) -> (len: Option<usize>)
    ensures
        match len {
            Some(len) => len == size_of::<T>() * data@.len() && len <= isize::MAX,
            None => size_of::<T>() * data@.len() > isize::MAX,
        },
{
    match core::mem::size_of::<T>().checked_mul(data.len()) {
        Some(len) => if len <= isize::MAX as usize {
            Some(len)
        } else {
            None
        },
        None => None,
    }
}

/// The hardware's code for the binding point of buffers used as `target`.
pub fn gl_target(target: BufferTarget) -> (code: GLenum)
    ensures
        code == target.code(),
{
    match target {
        BufferTarget::VertexBuffer => ARRAY_BUFFER,
        BufferTarget::IndexBuffer => ELEMENT_ARRAY_BUFFER,
        BufferTarget::UniformBuffer => UNIFORM_BUFFER,
    }
}

/// The hardware's code for a usage hint.
pub fn gl_usage(usage: BufferUsage) -> (code: GLenum)
    ensures
        code == usage.code(),
{
    match usage {
        BufferUsage::StreamDraw => STREAM_DRAW,
        BufferUsage::StreamRead => STREAM_READ,
        BufferUsage::StreamCopy => STREAM_COPY,
        BufferUsage::StaticDraw => STATIC_DRAW,
        BufferUsage::StaticRead => STATIC_READ,
        BufferUsage::StaticCopy => STATIC_COPY,
        BufferUsage::DynamicDraw => DYNAMIC_DRAW,
        BufferUsage::DynamicRead => DYNAMIC_READ,
        BufferUsage::DynamicCopy => DYNAMIC_COPY,
    }
}

} // verus!
