//! Vertex arrays: the vertex buffers that a draw call reads, how their bytes
//! are laid out, and the index buffer, bound together as one object.
//!
//! A vertex array is the one resource whose bind reaches beyond its own binding
//! point: with a vertex array the hardware also changes what the binding point
//! for index buffers holds. So every bind of a vertex array brings the registry's
//! entry for index buffers up to date as well.

use vstd::prelude::*;
use std::rc::Rc;
use gl::types::{GLenum, GLint, GLsizei};
use crate::buffer::{
    get_base_buffer, release_all_calls, release_share, BaseBuffer, Buffer, BufferSupport,
    BufferTarget, IndexBufferTag,
};
use crate::call::{calls_if, push_if, GlCall};
use crate::glenum::{
    BYTE, DOUBLE, FALSE, FLOAT, HALF_FLOAT, INT, INT_2_10_10_10_REV, SHORT, TRUE, UNSIGNED_BYTE,
    UNSIGNED_INT, UNSIGNED_INT_2_10_10_10_REV, UNSIGNED_SHORT,
};
use crate::id::{empty_id, GenerateId, Id};
use crate::resource::{created, share, ResourceCreationSupport};
use crate::tracker::{BindIf, BindNone, Bindings, Slot, SlotTag};
use crate::GlId;
use crate::ReglResult;

verus! {

/// The rights that a vertex array needs in a registry: to bind to its own
/// binding point, and to set and to empty the one for index buffers.
pub trait VertexArraySupport: BindIf<VertexArray> + BindIf<IndexBufferTag> + BindNone<
    IndexBufferTag,
> {
    /// Whether the hardware keeps the index buffer binding apart from the vertex
    /// array, so that it has to be bound anew with every vertex array.
    fn separate_ibo_binding(&self) -> (separate: bool)
        ensures
            separate == self@.separate_ibo_binding,
    ;
}

/// What the library itself does with a vertex array, and its users do not.
pub trait VertexArrayInternal {
    /// The bindings after the vertex array was made current, from `before`.
    spec fn bound(&self, before: Bindings) -> Bindings;

    /// The calls that make the vertex array current under the bindings `before`.
    spec fn bind_calls(&self, before: Bindings) -> Seq<GlCall>;

    /// Makes the vertex array current, and with it its index buffer.
    fn bind<S: VertexArraySupport>(&self, support: &mut S, calls: &mut Vec<GlCall>)
        ensures
            final(support)@ == self.bound(old(support)@),
            final(calls)@ == old(calls)@ + self.bind_calls(old(support)@),
    ;
}

/// A vertex array of the hardware. It owns the buffers it reads from, together
/// with their creators.
#[derive(Debug)]
pub struct VertexArray {
    uid: Id,
    gl_id: GlId,
    attributes: Vec<StoredVertexAttribute>,
    index_buffer: Option<Rc<BaseBuffer>>,
}

impl SlotTag for VertexArray {
    open spec fn slot() -> Slot {
        Slot::VertexArray
    }
}

/// The type of one number in a vertex buffer.
#[derive(Debug, Clone, Copy, PartialEq, Eq, Structural)]
pub enum VertexAttributeType {
    Byte,
    UnsignedByte,
    Short,
    UnsignedShort,
    Int,
    UnsignedInt,
    HalfFloat,
    Float,
    Double,
    Int2101010Rev,
    UnsignedInt2101010Rev,
}

impl VertexAttributeType {
    /// The size in bytes of one value of the type. The two packed types hold
    /// four numbers in one value.
    pub open spec fn spec_byte_size(&self) -> u32 {
        match self {
            VertexAttributeType::Byte | VertexAttributeType::UnsignedByte => 1,
            VertexAttributeType::Short
            | VertexAttributeType::UnsignedShort
            | VertexAttributeType::HalfFloat => 2,
            VertexAttributeType::Double => 8,
            _ => 4,
        }
    }

    /// The hardware's code for the type.
    pub open spec fn code(self) -> GLenum {
        match self {
            VertexAttributeType::Byte => BYTE,
            VertexAttributeType::UnsignedByte => UNSIGNED_BYTE,
            VertexAttributeType::Short => SHORT,
            VertexAttributeType::UnsignedShort => UNSIGNED_SHORT,
            VertexAttributeType::Int => INT,
            VertexAttributeType::UnsignedInt => UNSIGNED_INT,
            VertexAttributeType::HalfFloat => HALF_FLOAT,
            VertexAttributeType::Float => FLOAT,
            VertexAttributeType::Double => DOUBLE,
            VertexAttributeType::Int2101010Rev => INT_2_10_10_10_REV,
            VertexAttributeType::UnsignedInt2101010Rev => UNSIGNED_INT_2_10_10_10_REV,
        }
    }

    /// The size in bytes of one value of the type.
    pub fn byte_size(&self) -> (size: u32)
        ensures
            size == self.spec_byte_size(),
    {
        match *self {
            VertexAttributeType::Byte => 1,
            VertexAttributeType::UnsignedByte => 1,
            VertexAttributeType::Short => 2,
            VertexAttributeType::UnsignedShort => 2,
            VertexAttributeType::Int => 4,
            VertexAttributeType::UnsignedInt => 4,
            VertexAttributeType::HalfFloat => 2,
            VertexAttributeType::Float => 4,
            VertexAttributeType::Double => 8,
            VertexAttributeType::Int2101010Rev => 4,
            VertexAttributeType::UnsignedInt2101010Rev => 4,
        }
    }
}

/// One attribute of the vertices: where its values lie in a vertex buffer.
#[derive(Debug, Clone, Copy)]
pub struct VertexAttribute<'a> {
    /// The index of the attribute in the shader.
    pub index: u32,
    /// How many numbers make up one value.
    pub size: u8,
    /// The type of the numbers.
    pub attribute_type: VertexAttributeType,
    /// Whether integers are to be scaled into the unit range.
    pub normalized: bool,
    /// The distance in bytes from one vertex to the next.
    pub stride: u32,
    /// Where in the buffer the first value lies.
    pub offset: u32,
    /// The buffer that holds the values.
    pub vertex_buffer: &'a Buffer,
}

/// An attribute as a vertex array keeps it: with a share in the buffer.
#[derive(Debug)]
pub struct StoredVertexAttribute {
    pub index: u32,
    pub size: u8,
    pub attribute_type: VertexAttributeType,
    pub normalized: bool,
    pub stride: u32,
    pub offset: u32,
    pub vertex_buffer: Rc<BaseBuffer>,
}

/// The attribute that a vertex array keeps of `attribute`.
pub open spec fn stored(attribute: VertexAttribute) -> StoredVertexAttribute {
    StoredVertexAttribute {
        index: attribute.index,
        size: attribute.size,
        attribute_type: attribute.attribute_type,
        normalized: attribute.normalized,
        stride: attribute.stride,
        offset: attribute.offset,
        vertex_buffer: attribute.vertex_buffer.base(),
    }
}

/// The two calls that tell the hardware of an attribute, once its buffer is current.
pub open spec fn attribute_layout_calls(attribute: StoredVertexAttribute) -> Seq<GlCall> {
    seq![
        GlCall::EnableVertexAttribArray { index: attribute.index },
        GlCall::VertexAttribPointer {
            index: attribute.index,
            size: attribute.size as GLint,
            type_: attribute.attribute_type.code(),
            normalized: if attribute.normalized {
                TRUE
            } else {
                FALSE
            },
            stride: attribute.stride as GLsizei,
            pointer: attribute.offset as usize,
        },
    ]
}

/// The bindings after the buffers of `attributes` were made current one after
/// the other, from `before`.
pub open spec fn attributes_bound(attributes: Seq<StoredVertexAttribute>, before: Bindings) -> Bindings
    decreases attributes.len(),
{
    if attributes.len() == 0 {
        before
    } else {
        attributes_bound(attributes.drop_last(), before).bind(
            Slot::VertexBuffer,
            attributes.last().vertex_buffer.id(),
        )
    }
}

/// The calls that set `attributes` up under the bindings `before`: for each, its
/// buffer is made current, and then its layout is told.
pub open spec fn attributes_calls(attributes: Seq<StoredVertexAttribute>, before: Bindings) -> Seq<
    GlCall,
>
    decreases attributes.len(),
{
    if attributes.len() == 0 {
        Seq::empty()
    } else {
        attributes_calls(attributes.drop_last(), before)
            + attributes.last().vertex_buffer.bind_target_calls(
            attributes_bound(attributes.drop_last(), before),
            BufferTarget::VertexBuffer,
        ) + attribute_layout_calls(attributes.last())
    }
}

/// The bindings after a vertex array with these parts was set up, from `before`.
pub open spec fn setup_bound(
    attributes: Seq<StoredVertexAttribute>,
    index_buffer: Option<Rc<BaseBuffer>>,
    before: Bindings,
) -> Bindings {
    match index_buffer {
        Some(ibo) => attributes_bound(attributes, before.bind(Slot::IndexBuffer, ibo.id())),
        None => attributes_bound(attributes, before),
    }
}

/// The calls that set a vertex array with these parts up under the bindings
/// `before`: the index buffer is bound without asking the registry, then the
/// attributes follow.
pub open spec fn setup_calls(
    attributes: Seq<StoredVertexAttribute>,
    index_buffer: Option<Rc<BaseBuffer>>,
    before: Bindings,
) -> Seq<GlCall> {
    match index_buffer {
        Some(ibo) => seq![ibo.bind_call(BufferTarget::IndexBuffer)] + attributes_calls(
            attributes,
            before.bind(Slot::IndexBuffer, ibo.id()),
        ),
        None => attributes_calls(attributes, before),
    }
}

impl VertexArray {
    /// The number of the vertex array's identity.
    pub closed spec fn id(&self) -> nat {
        self.uid@
    }

    /// The name that the hardware knows the vertex array by.
    pub closed spec fn handle(&self) -> GlId {
        self.gl_id
    }

    /// The attributes of the vertex array.
    pub closed spec fn attributes(&self) -> Seq<StoredVertexAttribute> {
        self.attributes@
    }

    /// The index buffer of the vertex array, where it has one.
    pub closed spec fn index_buffer(&self) -> Option<Rc<BaseBuffer>> {
        self.index_buffer
    }

    /// What the binding point for index buffers holds while the vertex array is
    /// current: its index buffer, or nothing.
    pub open spec fn index_buffer_id(&self) -> nat {
        match self.index_buffer() {
            Some(ibo) => ibo.id(),
            None => empty_id(),
        }
    }

    /// Whether this is a default vertex array: one that the hardware provides,
    /// with the name 0, no attributes and no index buffer.
    pub open spec fn is_default(&self) -> bool {
        &&& self.handle() == 0
        &&& self.attributes().len() == 0
        &&& self.index_buffer() is None
    }

    /// The call that binds the vertex array.
    pub open spec fn bind_call(&self) -> GlCall {
        GlCall::BindVertexArray { array: self.handle() }
    }

    /// The buffers that the vertex array has a share in: those of its
    /// attributes, then its index buffer.
    pub open spec fn owned_buffers(&self) -> Seq<Rc<BaseBuffer>> {
        self.attributes().map_values(|a: StoredVertexAttribute| a.vertex_buffer) + match self.index_buffer() {
            Some(ibo) => seq![ibo],
            None => Seq::empty(),
        }
    }

    /// The calls by which the vertex array itself is given up: the hardware's
    /// vertex array is deleted, unless it is the one that the hardware provides.
    pub open spec fn delete_calls(&self) -> Seq<GlCall> {
        calls_if(self.handle() != 0, GlCall::DeleteVertexArrays { array: self.handle() })
    }

    /// Gives the vertex array up, and with it its shares in its buffers: each
    /// buffer that no one else owns is deleted too. The registry is left as it is.
    pub fn delete(self, calls: &mut Vec<GlCall>)
        ensures
            exists|last_owner: Seq<bool>|
                last_owner.len() == self.owned_buffers().len() && final(calls)@ == old(calls)@
                    + self.delete_calls() + #[trigger] release_all_calls(
                    self.owned_buffers(),
                    last_owner,
                ),
    {
        let ghost owned = self.owned_buffers();
        let ghost kept = self.attributes@;
        let VertexArray { uid, gl_id, attributes, index_buffer } = self;
        push_if(gl_id != 0, GlCall::DeleteVertexArrays { array: gl_id }, calls);
        let ghost first = calls@;
        let ghost flags = Seq::<bool>::empty();
        assert(owned.take(0) =~= Seq::<Rc<BaseBuffer>>::empty());
        assert(first =~= first + release_all_calls(owned.take(0), flags));
        for attribute in iter: attributes.into_iter()
            invariant
                iter.seq() == kept,
                kept.len() <= owned.len(),
                forall|k: int| 0 <= k < kept.len() ==> owned[k] == kept[k].vertex_buffer,
                flags.len() == iter.index(),
                calls@ == first + release_all_calls(owned.take(iter.index()), flags),
        {
            let ghost done = iter.index();
            assert(attribute == kept[done]);
            let last = release_share(attribute.vertex_buffer, calls);
            proof {
                let next = owned.take(done + 1);
                assert(next.drop_last() =~= owned.take(done));
                assert(next.last() == kept[done].vertex_buffer);
                assert(flags.push(last).drop_last() =~= flags);
                flags = flags.push(last);
                assert(calls@ =~= first + release_all_calls(next, flags));
            }
        }
        match index_buffer {
            Some(ibo) => {
                assert(owned.drop_last() =~= owned.take(kept.len() as int));
                assert(owned.last() == ibo);
                let last = release_share(ibo, calls);
                proof {
                    assert(flags.push(last).drop_last() =~= flags);
                    flags = flags.push(last);
                    assert(calls@ =~= first + release_all_calls(owned, flags));
                }
            },
            None => {
                assert(owned.take(kept.len() as int) =~= owned);
            },
        }
        assert(calls@ =~= old(calls)@ + self.delete_calls() + release_all_calls(owned, flags));
    }

    /// The identity of the vertex array.
    pub fn get_id(&self) -> (uid: &Id)
        ensures
            uid@ == self.id(),
    {
        &self.uid
    }

    /// Takes over the hardware vertex array `gl_id`, which the caller has just
    /// had generated, makes it current and sets it up: the index buffer is bound
    /// to it, and each attribute's buffer is made current and its layout told.
    pub fn new<'a, C: ResourceCreationSupport>(
        support: &mut C,
        gl_id: GlId,
        attributes: &[VertexAttribute<'a>],
        index_buffer: Option<&Buffer>,
        calls: &mut Vec<GlCall>,
    ) -> (result: ReglResult<VertexArray>)
        requires
            old(support).id_generator().can_generate(),
        ensures
            result matches Ok(vertex_array) && {
                &&& vertex_array.id() == old(support).id_generator()@ + 1
                &&& vertex_array.handle() == gl_id
                &&& vertex_array.attributes() == attributes@.map_values(
                    |a: VertexAttribute| stored(a),
                )
                &&& vertex_array.index_buffer() == match index_buffer {
                    Some(buffer) => Some(buffer.base()),
                    None => None,
                }
                &&& created(
                    *old(support),
                    *final(support),
                    setup_bound(
                        vertex_array.attributes(),
                        vertex_array.index_buffer(),
                        vertex_array.bound(old(support).shared_context()@),
                    ),
                )
                &&& final(calls)@ == old(calls)@ + vertex_array.bind_calls(
                    old(support).shared_context()@,
                ) + setup_calls(
                    vertex_array.attributes(),
                    vertex_array.index_buffer(),
                    vertex_array.bound(old(support).shared_context()@),
                )
            },
    {
        let ghost before = *support;
        let uid = support.generate_id();
        let mut stored_attributes: Vec<StoredVertexAttribute> = Vec::new();
        let mut i: usize = 0;
        while i < attributes.len()
            invariant
                i <= attributes@.len(),
                stored_attributes@ == attributes@.take(i as int).map_values(
                    |a: VertexAttribute| stored(a),
                ),
            decreases attributes@.len() - i,
        {
            stored_attributes.push(into_stored(&attributes[i]));
            assert(stored_attributes@ =~= attributes@.take(i + 1).map_values(
                |a: VertexAttribute| stored(a),
            ));
            i += 1;
        }
        assert(attributes@.take(i as int) =~= attributes@);
        let vertex_array = VertexArray {
            uid,
            gl_id,
            attributes: stored_attributes,
            index_buffer: match index_buffer {
                Some(buffer) => Some(share(get_base_buffer(buffer))),
                None => None,
            },
        };
        proof {
            before.lemma_generator_apart_from_registry(support.id_generator());
        }
        let shared_context = support.get_shared_context();
        vertex_array.bind(shared_context, calls);
        setup_vertex_array(
            vertex_array.attributes.as_slice(),
            match &vertex_array.index_buffer {
                Some(ibo) => Some(ibo),
                None => None,
            },
            shared_context,
            calls,
        );
        Ok(vertex_array)
    }

    fn gl_bind(&self) -> (call: GlCall)
        ensures
            call == self.bind_call(),
    {
        GlCall::BindVertexArray { array: self.gl_id }
    }
}

impl VertexArrayInternal for VertexArray {
    /// The vertex array is current, and the binding point for index buffers
    /// holds what it does whenever this vertex array is current.
    open spec fn bound(&self, before: Bindings) -> Bindings {
        before.bind(Slot::VertexArray, self.id()).bind(Slot::IndexBuffer, self.index_buffer_id())
    }

    /// The bind of the vertex array, unless it is current; and, where the
    /// hardware keeps the index buffer binding apart, the bind of the index
    /// buffer in any case.
    open spec fn bind_calls(&self, before: Bindings) -> Seq<GlCall> {
        calls_if(before.needs_bind(Slot::VertexArray, self.id()), self.bind_call()) + match self.index_buffer() {
            Some(ibo) => calls_if(
                before.separate_ibo_binding,
                ibo.bind_call(BufferTarget::IndexBuffer),
            ),
            None => Seq::empty(),
        }
    }

    fn bind<S: VertexArraySupport>(&self, support: &mut S, calls: &mut Vec<GlCall>) {
        let bind = BindIf::<VertexArray>::bind_if(support, &self.uid);
        push_if(bind, self.gl_bind(), calls);
        let separate = support.separate_ibo_binding();
        match &self.index_buffer {
            Some(ibo) => {
                if separate {
                    ibo.bind_as_indices_anyway(support, calls);
                } else {
                    let _ = BindIf::<IndexBufferTag>::bind_if(support, ibo.get_id());
                }
            },
            None => {
                BindNone::<IndexBufferTag>::bind_none(support);
            },
        }
        assert(calls@ =~= old(calls)@ + self.bind_calls(old(support)@));
    }
}

/// Whatever was bound before, once a vertex array is current the registry takes
/// its index buffer to be current, or no index buffer where it has none. This
/// holds for hardware of either kind.
pub proof fn lemma_bind_brings_index_buffer(vertex_array: VertexArray, before: Bindings)
    ensures
        vertex_array.bound(before).bound(Slot::VertexArray) == vertex_array.id(),
        vertex_array.bound(before).bound(Slot::IndexBuffer) == vertex_array.index_buffer_id(),
        vertex_array.bound(before).separate_ibo_binding == before.separate_ibo_binding,
{
}

/// A vertex array with an index buffer that is bound again after another one
/// without index buffer has its index buffer current again, not the nothing
/// that the other left. Where the hardware keeps the index buffer binding apart,
/// the bind that makes it so is among the calls of the last step.
pub proof fn lemma_rebind_restores_index_buffer(
    first: VertexArray,
    second: VertexArray,
    before: Bindings,
)
    requires
        first.index_buffer() is Some,
        second.index_buffer() is None,
    ensures
        first.bound(before).bound(Slot::IndexBuffer) == first.index_buffer()->0.id(),
        second.bound(first.bound(before)).bound(Slot::IndexBuffer) == empty_id(),
        first.bound(second.bound(first.bound(before))).bound(Slot::IndexBuffer)
            == first.index_buffer()->0.id(),
        before.separate_ibo_binding ==> first.bind_calls(
            second.bound(first.bound(before)),
        ).last() == first.index_buffer()->0.bind_call(BufferTarget::IndexBuffer),
        first.id() != second.id() ==> first.bind_calls(second.bound(first.bound(before)))[0]
            == first.bind_call(),
{
}

/// Sets up the vertex array that is current: binds its index buffer to it and
/// tells the hardware of its attributes.
fn setup_vertex_array<S: BufferSupport>(
    attributes: &[StoredVertexAttribute],
    index_buffer: Option<&Rc<BaseBuffer>>,
    support: &mut S,
    calls: &mut Vec<GlCall>,
)
    ensures
        final(support)@ == setup_bound(
            attributes@,
            match index_buffer {
                Some(ibo) => Some(*ibo),
                None => None,
            },
            old(support)@,
        ),
        final(calls)@ == old(calls)@ + setup_calls(
            attributes@,
            match index_buffer {
                Some(ibo) => Some(*ibo),
                None => None,
            },
            old(support)@,
        ),
{
    if let Some(ibo) = index_buffer {
        ibo.bind_as_indices_anyway(support, calls);
    }
    let ghost start = support@;
    let ghost first = calls@;
    let mut i: usize = 0;
    assert(attributes@.take(0) =~= Seq::<StoredVertexAttribute>::empty());
    while i < attributes.len()
        invariant
            i <= attributes@.len(),
            support@ == attributes_bound(attributes@.take(i as int), start),
            calls@ == first + attributes_calls(attributes@.take(i as int), start),
        decreases attributes@.len() - i,
    {
        let attribute = &attributes[i];
        proof {
            let next = attributes@.take(i + 1);
            assert(next.drop_last() =~= attributes@.take(i as int));
            assert(next.last() == attributes@[i as int]);
        }
        attribute.vertex_buffer.bind_target(support, BufferTarget::VertexBuffer, calls);
        calls.push(GlCall::EnableVertexAttribArray { index: attribute.index });
        calls.push(
            GlCall::VertexAttribPointer {
                index: attribute.index,
                size: attribute.size as GLint,
                type_: attribute_to_gl_type(attribute.attribute_type),
                normalized: if attribute.normalized {
                    TRUE
                } else {
                    FALSE
                },
                stride: #[verifier::truncate] (attribute.stride as GLsizei),
                pointer: attribute.offset as usize,
            },
        );
        assert(calls@ =~= first + attributes_calls(attributes@.take(i + 1), start));
        i += 1;
    }
    assert(attributes@.take(i as int) =~= attributes@);
    assert(calls@ =~= old(calls)@ + setup_calls(
        attributes@,
        match index_buffer {
            Some(ibo) => Some(*ibo),
            None => None,
        },
        old(support)@,
    ));
}

/// Makes `vertex_array` current, and with it its index buffer.
pub fn bind_vertex_array<S: VertexArraySupport>(
    vertex_array: &VertexArray,
    support: &mut S,
    calls: &mut Vec<GlCall>,
)
    ensures
        final(support)@ == vertex_array.bound(old(support)@),
        final(calls)@ == old(calls)@ + vertex_array.bind_calls(old(support)@),
{
    vertex_array.bind(support, calls);
}

/// The vertex array that the hardware provides: it has the name 0, no
/// attributes and no index buffer. It is made current.
pub fn create_default_vertex_array<C: ResourceCreationSupport>(
    support: &mut C,
    calls: &mut Vec<GlCall>,
) -> (result: ReglResult<VertexArray>)
    requires
        old(support).id_generator().can_generate(),
    ensures
        result matches Ok(vertex_array) && {
            &&& vertex_array.id() == old(support).id_generator()@ + 1
            &&& vertex_array.is_default()
            &&& created(
                *old(support),
                *final(support),
                vertex_array.bound(old(support).shared_context()@),
            )
            &&& final(calls)@ == old(calls)@ + vertex_array.bind_calls(
                old(support).shared_context()@,
            )
        },
{
    let no_attributes: Vec<VertexAttribute> = Vec::new();
    VertexArray::new(support, 0, no_attributes.as_slice(), None, calls)
}

fn into_stored<'a>(attribute: &VertexAttribute<'a>) -> (kept: StoredVertexAttribute)
    ensures
        kept == stored(*attribute),
{
    StoredVertexAttribute {
        index: attribute.index,
        size: attribute.size,
        attribute_type: attribute.attribute_type,
        normalized: attribute.normalized,
        stride: attribute.stride,
        offset: attribute.offset,
        vertex_buffer: share(get_base_buffer(attribute.vertex_buffer)),
    }
}

/// The hardware's code for the type of the numbers in a vertex buffer.
pub fn attribute_to_gl_type(attribute_type: VertexAttributeType) -> (code: GLenum)
    ensures
        code == attribute_type.code(),
{
    match attribute_type {
        VertexAttributeType::Byte => BYTE,
        VertexAttributeType::UnsignedByte => UNSIGNED_BYTE,
        VertexAttributeType::Short => SHORT,
        VertexAttributeType::UnsignedShort => UNSIGNED_SHORT,
        VertexAttributeType::Int => INT,
        VertexAttributeType::UnsignedInt => UNSIGNED_INT,
        VertexAttributeType::HalfFloat => HALF_FLOAT,
        VertexAttributeType::Float => FLOAT,
        VertexAttributeType::Double => DOUBLE,
        VertexAttributeType::Int2101010Rev => INT_2_10_10_10_REV,
        VertexAttributeType::UnsignedInt2101010Rev => UNSIGNED_INT_2_10_10_10_REV,
    }
}

} // verus!
