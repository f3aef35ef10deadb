//! The registry of binding state that all resources of one rendering context use.

use vstd::prelude::*;
use crate::buffer::{BufferSupport, IndexBufferTag, UniformBufferTag, VertexBufferTag};
use crate::framebuffer::{DrawFramebufferTag, FramebufferSupport};
use crate::id::{empty_id, Id, WeakId};
use crate::program::{Program, ProgramSupport};
use crate::tracker::{BindIf, BindNone, Bindings, SimpleTracker, Slot};
use crate::vertex_array::{VertexArray, VertexArraySupport};

verus! {

/// One tracker for each binding point, and the one fact about the hardware that
/// the binding logic depends on.
#[derive(Debug)]
pub struct SharedContext {
    draw_framebuffer_tracker: SimpleTracker,
    vertex_array_tracker: SimpleTracker,
    vertex_buffer_tracker: SimpleTracker,
    index_buffer_tracker: SimpleTracker,
    uniform_buffer_tracker: SimpleTracker,
    program_tracker: SimpleTracker,
    separate_ibo_binding: bool,
}

impl View for SharedContext {
    type V = Bindings;

    closed spec fn view(&self) -> Bindings {
        Bindings {
            draw_framebuffer: self.draw_framebuffer_tracker@,
            vertex_array: self.vertex_array_tracker@,
            vertex_buffer: self.vertex_buffer_tracker@,
            index_buffer: self.index_buffer_tracker@,
            uniform_buffer: self.uniform_buffer_tracker@,
            program: self.program_tracker@,
            separate_ibo_binding: self.separate_ibo_binding,
        }
    }
}

/// The bindings of a registry that knows of no bound object.
pub open spec fn no_bindings(separate_ibo_binding: bool) -> Bindings {
    Bindings {
        draw_framebuffer: empty_id(),
        vertex_array: empty_id(),
        vertex_buffer: empty_id(),
        index_buffer: empty_id(),
        uniform_buffer: empty_id(),
        program: empty_id(),
        separate_ibo_binding,
    }
}

/// A registry for hardware that keeps the index buffer binding as part of the
/// vertex array.
pub fn new_shared_context() -> (shared_context: SharedContext)
    ensures
        shared_context@ == no_bindings(false),
{
    SharedContext::new(false)
}

impl SharedContext {
    /// A registry that knows of no bound object. `separate_ibo_binding` says
    /// whether the hardware keeps the index buffer binding apart from the vertex
    /// array; it is decided here, once.
    pub fn new(separate_ibo_binding: bool) -> (shared_context: SharedContext)
        ensures
            shared_context@ == no_bindings(separate_ibo_binding),
    {
        SharedContext {
            draw_framebuffer_tracker: SimpleTracker::new(),
            vertex_array_tracker: SimpleTracker::new(),
            vertex_buffer_tracker: SimpleTracker::new(),
            index_buffer_tracker: SimpleTracker::new(),
            uniform_buffer_tracker: SimpleTracker::new(),
            program_tracker: SimpleTracker::new(),
            separate_ibo_binding,
        }
    }

    /// What the registry takes `slot` to hold.
    pub fn current(&self, slot: Slot) -> (current: WeakId)
        ensures
            current@ == self@.bound(slot),
    {
        match slot {
            Slot::DrawFramebuffer => self.draw_framebuffer_tracker.current(),
            Slot::VertexArray => self.vertex_array_tracker.current(),
            Slot::VertexBuffer => self.vertex_buffer_tracker.current(),
            Slot::IndexBuffer => self.index_buffer_tracker.current(),
            Slot::UniformBuffer => self.uniform_buffer_tracker.current(),
            Slot::Program => self.program_tracker.current(),
        }
    }
}

impl BindIf<DrawFramebufferTag> for SharedContext {
    fn bind_if(&mut self, uid: &Id) -> (bind: bool) {
        self.draw_framebuffer_tracker.bind_if(uid)
    }
}

impl BindIf<VertexArray> for SharedContext {
    fn bind_if(&mut self, uid: &Id) -> (bind: bool) {
        self.vertex_array_tracker.bind_if(uid)
    }
}

impl BindIf<VertexBufferTag> for SharedContext {
    fn bind_if(&mut self, uid: &Id) -> (bind: bool) {
        self.vertex_buffer_tracker.bind_if(uid)
    }
}

impl BindIf<IndexBufferTag> for SharedContext {
    fn bind_if(&mut self, uid: &Id) -> (bind: bool) {
        self.index_buffer_tracker.bind_if(uid)
    }
}

impl BindNone<IndexBufferTag> for SharedContext {
    fn bind_none(&mut self) {
        self.index_buffer_tracker.bind_none()
    }
}

impl BindIf<UniformBufferTag> for SharedContext {
    fn bind_if(&mut self, uid: &Id) -> (bind: bool) {
        self.uniform_buffer_tracker.bind_if(uid)
    }
}

impl BindIf<Program> for SharedContext {
    fn bind_if(&mut self, uid: &Id) -> (bind: bool) {
        self.program_tracker.bind_if(uid)
    }
}

impl FramebufferSupport for SharedContext {

}

impl VertexArraySupport for SharedContext {
    fn separate_ibo_binding(&self) -> (separate: bool) {
        self.separate_ibo_binding
    }
}

impl BufferSupport for SharedContext {

}

impl ProgramSupport for SharedContext {

}

} // verus!
