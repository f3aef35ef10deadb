//! What the registry saves, and why it can be believed.
//!
//! It saves calls: the bind of an object that is current makes none. And it can
//! be believed because of what the calls that the library decides on do to the
//! hardware. That is stated here over a model of the hardware's binding points,
//! and of one object at a time: the registry goes by identities and the
//! hardware by names, and only the object itself knows both. Since no identity
//! is issued twice, what the registry holds of other objects says nothing of
//! this one.
//!
//! The model is of the binding points alone. It leaves out what deleting does
//! to them: an object that has been given up is not bound again, and a buffer
//! that a vertex array uses is not deleted while the vertex array lives.

use vstd::prelude::*;
use crate::buffer::{BaseBuffer, BufferTarget};
use crate::call::{calls_if, GlCall};
use crate::context::draw_bind_calls;
use crate::framebuffer::{Framebuffer, FramebufferInternal};
use crate::glenum::{ARRAY_BUFFER, DRAW_FRAMEBUFFER, ELEMENT_ARRAY_BUFFER, UNIFORM_BUFFER};
use crate::id::empty_id;
use crate::program::{Program, ProgramInternal};
use crate::tracker::{Bindings, Slot};
use crate::vertex_array::{
    attribute_layout_calls, attributes_bound, attributes_calls, setup_calls, StoredVertexAttribute,
    VertexArray, VertexArrayInternal,
};
use crate::GlId;

verus! {

/// What the hardware has bound, by the names of the objects.
///
/// The binding point for index buffers is the one that is not simply a place
/// for one object. On hardware of one kind the index buffer is attached to the
/// vertex array that is current when it is bound, and comes back with that
/// vertex array. On hardware of the other kind it is bound apart and stays
/// whatever vertex array is bound.
pub ghost struct Hardware {
    pub draw_framebuffer: GlId,
    pub vertex_array: GlId,
    pub vertex_buffer: GlId,
    pub uniform_buffer: GlId,
    pub program: GlId,
    /// The index buffer that is attached to each vertex array.
    pub attached_indices: Map<GlId, GlId>,
    /// The index buffer that was bound last.
    pub separate_indices: GlId,
    /// Whether the index buffer is bound apart from the vertex array.
    pub separate_ibo_binding: bool,
}

impl Hardware {
    /// The index buffer that is attached to `vertex_array`; 0 where none is.
    pub open spec fn attached(self, vertex_array: GlId) -> GlId {
        if self.attached_indices.contains_key(vertex_array) {
            self.attached_indices[vertex_array]
        } else {
            0
        }
    }

    /// The index buffer that an indexed draw call would read.
    pub open spec fn index_buffer(self) -> GlId {
        if self.separate_ibo_binding {
            self.separate_indices
        } else {
            self.attached(self.vertex_array)
        }
    }

    /// What is bound at `slot`.
    pub open spec fn bound(self, slot: Slot) -> GlId {
        match slot {
            Slot::DrawFramebuffer => self.draw_framebuffer,
            Slot::VertexArray => self.vertex_array,
            Slot::VertexBuffer => self.vertex_buffer,
            Slot::IndexBuffer => self.index_buffer(),
            Slot::UniformBuffer => self.uniform_buffer,
            Slot::Program => self.program,
        }
    }

    /// The hardware after `call`.
    pub open spec fn perform(self, call: GlCall) -> Hardware {
        match call {
            GlCall::BindBuffer { target, buffer } => if target == ARRAY_BUFFER {
                Hardware { vertex_buffer: buffer, ..self }
            } else if target == UNIFORM_BUFFER {
                Hardware { uniform_buffer: buffer, ..self }
            } else if target == ELEMENT_ARRAY_BUFFER {
                if self.separate_ibo_binding {
                    Hardware { separate_indices: buffer, ..self }
                } else {
                    Hardware {
                        attached_indices: self.attached_indices.insert(self.vertex_array, buffer),
                        ..self
                    }
                }
            } else {
                self
            },
            GlCall::BindVertexArray { array } => Hardware { vertex_array: array, ..self },
            GlCall::BindFramebuffer { target, framebuffer } => if target == DRAW_FRAMEBUFFER {
                Hardware { draw_framebuffer: framebuffer, ..self }
            } else {
                self
            },
            GlCall::UseProgram { program } => Hardware { program, ..self },
            _ => self,
        }
    }

    /// The hardware after `calls`, performed in their order.
    pub open spec fn perform_all(self, calls: Seq<GlCall>) -> Hardware
        decreases calls.len(),
    {
        if calls.len() == 0 {
            self
        } else {
            self.perform_all(calls.drop_last()).perform(calls.last())
        }
    }

    /// Whether `other` has the same objects bound at every binding point but
    /// `slot`, and is hardware of the same kind.
    pub open spec fn same_elsewhere(self, other: Hardware, slot: Slot) -> bool {
        &&& slot != Slot::DrawFramebuffer ==> self.draw_framebuffer == other.draw_framebuffer
        &&& slot != Slot::VertexArray ==> self.vertex_array == other.vertex_array
        &&& slot != Slot::VertexBuffer ==> self.vertex_buffer == other.vertex_buffer
        &&& slot != Slot::UniformBuffer ==> self.uniform_buffer == other.uniform_buffer
        &&& slot != Slot::Program ==> self.program == other.program
        &&& slot != Slot::IndexBuffer ==> {
            &&& self.attached_indices == other.attached_indices
            &&& self.separate_indices == other.separate_indices
        }
        &&& self.separate_ibo_binding == other.separate_ibo_binding
    }
}

/// Whether the registry is right about the object with the identity `id` and
/// the hardware name `handle` at `slot`: where it takes the object to be current
/// there, the hardware has it bound there.
pub open spec fn right_about(
    bindings: Bindings,
    hardware: Hardware,
    slot: Slot,
    id: nat,
    handle: GlId,
) -> bool {
    bindings.bound(slot) == id ==> hardware.bound(slot) == handle
}

/// Performing calls one run after the other is performing them all.
pub proof fn lemma_perform_all_in_two_runs(hardware: Hardware, first: Seq<GlCall>, then: Seq<GlCall>)
    ensures
        hardware.perform_all(first + then) == hardware.perform_all(first).perform_all(then),
    decreases then.len(),
{
    if then.len() == 0 {
        assert(first + then =~= first);
    } else {
        assert((first + then).drop_last() =~= first + then.drop_last());
        assert((first + then).last() == then.last());
        lemma_perform_all_in_two_runs(hardware, first, then.drop_last());
    }
}

/// A call that is made where it is needed and left out where it is not does to
/// the hardware what the call does, or nothing.
pub proof fn lemma_perform_call_if(hardware: Hardware, needed: bool, call: GlCall)
    ensures
        hardware.perform_all(calls_if(needed, call)) == if needed {
            hardware.perform(call)
        } else {
            hardware
        },
{
    reveal_with_fuel(Hardware::perform_all, 2);
    if needed {
        assert(calls_if(needed, call).drop_last() =~= Seq::<GlCall>::empty());
        assert(calls_if(needed, call).last() == call);
    }
}

/// A bind through the registry leaves its object bound, as long as the registry
/// was right about the object before: either the bind is made now, or it is
/// left out because the object is bound already.
pub proof fn lemma_bind_makes_current(
    bindings: Bindings,
    hardware: Hardware,
    slot: Slot,
    id: nat,
    handle: GlId,
    call: GlCall,
)
    requires
        hardware.perform(call).bound(slot) == handle,
        right_about(bindings, hardware, slot, id, handle),
    ensures
        hardware.perform_all(calls_if(bindings.needs_bind(slot, id), call)).bound(slot) == handle,
        right_about(
            bindings.bind(slot, id),
            hardware.perform_all(calls_if(bindings.needs_bind(slot, id), call)),
            slot,
            id,
            handle,
        ),
{
    lemma_perform_call_if(hardware, bindings.needs_bind(slot, id), call);
}

/// The bind of another object leaves the registry right about this one: the
/// registry then holds the other's identity, which is not this one's.
pub proof fn lemma_bind_of_another_keeps_right(
    bindings: Bindings,
    hardware: Hardware,
    slot: Slot,
    id: nat,
    handle: GlId,
    other_id: nat,
)
    requires
        other_id != id,
    ensures
        right_about(bindings.bind(slot, other_id), hardware, slot, id, handle),
{
}

impl Program {
    /// A program that is current is not bound again: its bind makes no call
    /// then.
    pub proof fn lemma_bind_of_current_makes_no_call(&self, before: Bindings)
        ensures
            self.bind_calls(self.bound(before)) =~= Seq::empty(),
            self.bound(self.bound(before)) == self.bound(before),
    {
    }

    /// After its bind a program is the one that draw calls run, as long as the
    /// registry was right about it before.
    pub proof fn lemma_bind_makes_current(&self, before: Bindings, hardware: Hardware)
        requires
            right_about(before, hardware, Slot::Program, self.id(), self.handle()),
        ensures
            hardware.perform_all(self.bind_calls(before)).program == self.handle(),
            hardware.perform_all(self.bind_calls(before)).same_elsewhere(hardware, Slot::Program),
    {
        lemma_perform_call_if(
            hardware,
            before.needs_bind(Slot::Program, self.id()),
            self.bind_call(),
        );
    }
}

impl Framebuffer {
    /// A framebuffer that is current is not bound again: its bind makes no call
    /// then.
    pub proof fn lemma_bind_of_current_makes_no_call(&self, before: Bindings)
        ensures
            self.bind_calls(self.bound(before)) =~= Seq::empty(),
            self.bound(self.bound(before)) == self.bound(before),
    {
    }

    /// After its bind a framebuffer is the one that draw calls render into, as
    /// long as the registry was right about it before.
    pub proof fn lemma_bind_makes_current(&self, before: Bindings, hardware: Hardware)
        requires
            right_about(before, hardware, Slot::DrawFramebuffer, self.id(), self.handle()),
        ensures
            hardware.perform_all(self.bind_calls(before)).draw_framebuffer == self.handle(),
            hardware.perform_all(self.bind_calls(before)).same_elsewhere(
                hardware,
                Slot::DrawFramebuffer,
            ),
    {
        lemma_perform_call_if(
            hardware,
            before.needs_bind(Slot::DrawFramebuffer, self.id()),
            self.bind_call(),
        );
    }
}

impl BaseBuffer {
    /// A buffer that is current at a binding point is not bound there again:
    /// its bind makes no call then.
    pub proof fn lemma_bind_of_current_makes_no_call(&self, before: Bindings, target: BufferTarget)
        ensures
            self.bind_target_calls(before.bind(target.slot(), self.id()), target) =~= Seq::empty(),
    {
    }

    /// After its bind to the binding point for vertex data or for uniforms a
    /// buffer is the one that is bound there, as long as the registry was right
    /// about it before. The other binding points are as they were.
    pub proof fn lemma_bind_makes_current(
        &self,
        before: Bindings,
        hardware: Hardware,
        target: BufferTarget,
    )
        requires
            target != BufferTarget::IndexBuffer,
            right_about(before, hardware, target.slot(), self.id(), self.handle()),
        ensures
            hardware.perform_all(self.bind_target_calls(before, target)).bound(target.slot())
                == self.handle(),
            hardware.perform_all(self.bind_target_calls(before, target)).same_elsewhere(
                hardware,
                target.slot(),
            ),
    {
        lemma_perform_call_if(
            hardware,
            before.needs_bind(target.slot(), self.id()),
            self.bind_call(target),
        );
    }

    /// An update writes into the buffer that it is an update of: when the data
    /// is sent, the hardware has the buffer bound at its binding point.
    ///
    /// For a buffer of vertex data or of uniforms this takes that the registry
    /// was right about the buffer before. For an index buffer it takes that
    /// the registry was right about the default vertex array, under which the
    /// buffer is bound, and that the default vertex array has no index buffer
    /// of its own; the identity of the buffer is, like every identity of an
    /// object, not the empty one. The index buffers that are attached to other
    /// vertex arrays stay attached.
    pub proof fn lemma_update_reaches_the_buffer(&self, before: Bindings, hardware: Hardware)
        requires
            hardware.separate_ibo_binding == before.separate_ibo_binding,
            self.target() != BufferTarget::IndexBuffer ==> right_about(
                before,
                hardware,
                self.target().slot(),
                self.id(),
                self.handle(),
            ),
            self.target() == BufferTarget::IndexBuffer ==> {
                &&& self.id() != empty_id()
                &&& self.default_vertex_array().index_buffer() is None
                &&& right_about(
                    before,
                    hardware,
                    Slot::VertexArray,
                    self.default_vertex_array().id(),
                    self.default_vertex_array().handle(),
                )
            },
        ensures
            hardware.perform_all(self.bind_default_calls(before)).bound(self.target().slot())
                == self.handle(),
            forall|vertex_array: GlId|
                vertex_array != self.default_vertex_array().handle() ==> hardware.perform_all(
                    self.bind_default_calls(before),
                ).attached(vertex_array) == hardware.attached(vertex_array),
    {
        if self.target() == BufferTarget::IndexBuffer {
            let default = self.default_vertex_array();
            let own = default.bind_calls(before);
            let under = hardware.perform_all(own);
            default.lemma_bind_makes_current(before, hardware);
            let bind = self.bind_target_calls(default.bound(before), BufferTarget::IndexBuffer);
            lemma_perform_call_if(
                under,
                default.bound(before).needs_bind(Slot::IndexBuffer, self.id()),
                self.bind_call(BufferTarget::IndexBuffer),
            );
            lemma_perform_all_in_two_runs(hardware, own, bind);
        } else {
            self.lemma_bind_makes_current(before, hardware, self.target());
        }
    }
}

impl VertexArray {
    /// A vertex array that is current is not bound again. Its bind then makes
    /// no call at all where the index buffer binding is part of the vertex
    /// array, and only the bind of its index buffer where it is kept apart.
    pub proof fn lemma_bind_of_current_makes_no_call(&self, before: Bindings)
        ensures
            self.bound(self.bound(before)) == self.bound(before),
            !before.separate_ibo_binding || self.index_buffer() is None ==> self.bind_calls(
                self.bound(before),
            ) =~= Seq::empty(),
            before.separate_ibo_binding && self.index_buffer() is Some ==> self.bind_calls(
                self.bound(before),
            ) =~= seq![self.index_buffer()->0.bind_call(BufferTarget::IndexBuffer)],
    {
    }

    /// After its bind a vertex array is the current one, as long as the registry
    /// was right about it before, and no index buffer is attached or detached
    /// but its own, to itself.
    ///
    /// With the vertex array its index buffer is the one that indexed draw
    /// calls read. Where the hardware keeps the index buffer apart this is so
    /// because the bind binds it anew. Where the index buffer is part of the
    /// vertex array it is so as long as the index buffer is still attached to
    /// the vertex array, as it was when the vertex array was set up.
    pub proof fn lemma_bind_makes_current(&self, before: Bindings, hardware: Hardware)
        requires
            hardware.separate_ibo_binding == before.separate_ibo_binding,
            right_about(before, hardware, Slot::VertexArray, self.id(), self.handle()),
        ensures
            hardware.perform_all(self.bind_calls(before)).vertex_array == self.handle(),
            hardware.perform_all(self.bind_calls(before)).separate_ibo_binding
                == hardware.separate_ibo_binding,
            hardware.perform_all(self.bind_calls(before)).program == hardware.program,
            hardware.perform_all(self.bind_calls(before)).draw_framebuffer
                == hardware.draw_framebuffer,
            hardware.perform_all(self.bind_calls(before)).vertex_buffer == hardware.vertex_buffer,
            hardware.perform_all(self.bind_calls(before)).uniform_buffer == hardware.uniform_buffer,
            forall|vertex_array: GlId|
                hardware.perform_all(self.bind_calls(before)).attached(vertex_array)
                    == hardware.attached(vertex_array),
            self.index_buffer() matches Some(ibo) ==> (hardware.separate_ibo_binding
                || hardware.attached(self.handle()) == ibo.handle()) ==> hardware.perform_all(
                self.bind_calls(before),
            ).index_buffer() == ibo.handle(),
            self.index_buffer() is None ==> hardware.perform_all(
                self.bind_calls(before),
            ).separate_indices == hardware.separate_indices,
    {
        let own = calls_if(before.needs_bind(Slot::VertexArray, self.id()), self.bind_call());
        let index = match self.index_buffer() {
            Some(ibo) => calls_if(
                before.separate_ibo_binding,
                ibo.bind_call(BufferTarget::IndexBuffer),
            ),
            None => Seq::empty(),
        };
        let current = hardware.perform_all(own);
        lemma_perform_call_if(
            hardware,
            before.needs_bind(Slot::VertexArray, self.id()),
            self.bind_call(),
        );
        assert(current.vertex_array == self.handle());
        match self.index_buffer() {
            Some(ibo) => {
                lemma_perform_call_if(
                    current,
                    before.separate_ibo_binding,
                    ibo.bind_call(BufferTarget::IndexBuffer),
                );
            },
            None => {},
        }
        lemma_perform_all_in_two_runs(hardware, own, index);
        assert(self.bind_calls(before) =~= own + index);
    }

    /// Setting a vertex array up attaches its index buffer to it: after the
    /// calls, made while the vertex array is current, the index buffer is the
    /// one that indexed draw calls read, and on hardware that keeps the index
    /// buffer with the vertex array it is attached to this one. The attributes
    /// that follow bind vertex buffers only.
    pub proof fn lemma_setup_attaches_index_buffer(&self, before: Bindings, hardware: Hardware)
        requires
            hardware.vertex_array == self.handle(),
        ensures
            hardware.perform_all(
                setup_calls(self.attributes(), self.index_buffer(), before),
            ).vertex_array == self.handle(),
            self.index_buffer() matches Some(ibo) ==> {
                &&& hardware.perform_all(
                    setup_calls(self.attributes(), self.index_buffer(), before),
                ).index_buffer() == ibo.handle()
                &&& !hardware.separate_ibo_binding ==> hardware.perform_all(
                    setup_calls(self.attributes(), self.index_buffer(), before),
                ).attached(self.handle()) == ibo.handle()
            },
    {
        match self.index_buffer() {
            Some(ibo) => {
                let first = seq![ibo.bind_call(BufferTarget::IndexBuffer)];
                let start = before.bind(Slot::IndexBuffer, ibo.id());
                lemma_perform_call_if(hardware, true, ibo.bind_call(BufferTarget::IndexBuffer));
                assert(first =~= calls_if(true, ibo.bind_call(BufferTarget::IndexBuffer)));
                lemma_attributes_keep_indices(
                    self.attributes(),
                    start,
                    hardware.perform_all(first),
                );
                lemma_perform_all_in_two_runs(
                    hardware,
                    first,
                    attributes_calls(self.attributes(), start),
                );
            },
            None => {
                lemma_attributes_keep_indices(self.attributes(), before, hardware);
            },
        }
    }
}

impl VertexArray {
    /// The calls that create a vertex array leave it current with its index
    /// buffer attached: this is what its later binds rely on.
    pub proof fn lemma_creation_attaches_index_buffer(&self, before: Bindings, hardware: Hardware)
        requires
            hardware.separate_ibo_binding == before.separate_ibo_binding,
            right_about(before, hardware, Slot::VertexArray, self.id(), self.handle()),
        ensures
            hardware.perform_all(
                self.bind_calls(before) + setup_calls(
                    self.attributes(),
                    self.index_buffer(),
                    self.bound(before),
                ),
            ).vertex_array == self.handle(),
            self.index_buffer() matches Some(ibo) ==> {
                &&& hardware.perform_all(
                    self.bind_calls(before) + setup_calls(
                        self.attributes(),
                        self.index_buffer(),
                        self.bound(before),
                    ),
                ).index_buffer() == ibo.handle()
                &&& !hardware.separate_ibo_binding ==> hardware.perform_all(
                    self.bind_calls(before) + setup_calls(
                        self.attributes(),
                        self.index_buffer(),
                        self.bound(before),
                    ),
                ).attached(self.handle()) == ibo.handle()
            },
    {
        let current = hardware.perform_all(self.bind_calls(before));
        self.lemma_bind_makes_current(before, hardware);
        self.lemma_setup_attaches_index_buffer(self.bound(before), current);
        lemma_perform_all_in_two_runs(
            hardware,
            self.bind_calls(before),
            setup_calls(self.attributes(), self.index_buffer(), self.bound(before)),
        );
    }
}

/// A draw call finds its three objects bound: after the calls that make the
/// program, the framebuffer and the vertex array current, the hardware has all
/// three bound, as long as the registry was right about each before. With the
/// vertex array its index buffer is the one that an indexed draw call reads,
/// as long as it is still attached to the vertex array where the hardware
/// keeps it there.
pub proof fn lemma_draw_finds_its_objects_bound(
    program: &Program,
    target: &Framebuffer,
    vertex_array: &VertexArray,
    before: Bindings,
    hardware: Hardware,
)
    requires
        hardware.separate_ibo_binding == before.separate_ibo_binding,
        right_about(before, hardware, Slot::Program, program.id(), program.handle()),
        right_about(before, hardware, Slot::DrawFramebuffer, target.id(), target.handle()),
        right_about(before, hardware, Slot::VertexArray, vertex_array.id(), vertex_array.handle()),
    ensures
        hardware.perform_all(draw_bind_calls(program, target, vertex_array, before)).program
            == program.handle(),
        hardware.perform_all(
            draw_bind_calls(program, target, vertex_array, before),
        ).draw_framebuffer == target.handle(),
        hardware.perform_all(draw_bind_calls(program, target, vertex_array, before)).vertex_array
            == vertex_array.handle(),
        vertex_array.index_buffer() matches Some(ibo) ==> (hardware.separate_ibo_binding
            || hardware.attached(vertex_array.handle()) == ibo.handle()) ==> hardware.perform_all(
            draw_bind_calls(program, target, vertex_array, before),
        ).index_buffer() == ibo.handle(),
{
    let first = program.bind_calls(before);
    let second = target.bind_calls(program.bound(before));
    let third = vertex_array.bind_calls(target.bound(program.bound(before)));
    let with_program = hardware.perform_all(first);
    let with_target = with_program.perform_all(second);
    program.lemma_bind_makes_current(before, hardware);
    target.lemma_bind_makes_current(program.bound(before), with_program);
    vertex_array.lemma_bind_makes_current(target.bound(program.bound(before)), with_target);
    lemma_perform_all_in_two_runs(hardware, first, second);
    lemma_perform_all_in_two_runs(hardware, first + second, third);
    assert(with_target.attached(vertex_array.handle()) == hardware.attached(
        vertex_array.handle(),
    ));
}

/// Telling the hardware of attributes binds vertex buffers and nothing else.
pub proof fn lemma_attributes_keep_indices(
    attributes: Seq<StoredVertexAttribute>,
    before: Bindings,
    hardware: Hardware,
)
    ensures
        hardware.perform_all(attributes_calls(attributes, before)).same_elsewhere(
            hardware,
            Slot::VertexBuffer,
        ),
    decreases attributes.len(),
{
    if attributes.len() > 0 {
        let earlier = attributes.drop_last();
        let last = attributes.last();
        let so_far = attributes_calls(earlier, before);
        let bind = last.vertex_buffer.bind_target_calls(
            attributes_bound(earlier, before),
            BufferTarget::VertexBuffer,
        );
        let layout = attribute_layout_calls(last);
        lemma_attributes_keep_indices(earlier, before, hardware);
        let reached = hardware.perform_all(so_far);
        lemma_perform_call_if(
            reached,
            attributes_bound(earlier, before).needs_bind(Slot::VertexBuffer, last.vertex_buffer.id()),
            last.vertex_buffer.bind_call(BufferTarget::VertexBuffer),
        );
        let bound = reached.perform_all(bind);
        assert(bound.perform_all(layout) == bound) by {
            reveal_with_fuel(Hardware::perform_all, 3);
            assert(layout.drop_last() =~= seq![layout[0]]);
            assert(seq![layout[0]].drop_last() =~= Seq::<GlCall>::empty());
        }
        lemma_perform_all_in_two_runs(hardware, so_far, bind);
        lemma_perform_all_in_two_runs(hardware, so_far + bind, layout);
    }
}

} // verus!
