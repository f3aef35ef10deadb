//! Framebuffers: what a draw call renders into.

use vstd::prelude::*;
use crate::call::{calls_if, push_if, GlCall};
use crate::glenum::{COLOR_BUFFER_BIT, DEPTH_BUFFER_BIT, DRAW_FRAMEBUFFER, STENCIL_BUFFER_BIT};
use crate::id::{GenerateId, Id};
use crate::resource::{created, ResourceCreationSupport};
use crate::tracker::{BindIf, Bindings, Slot, SlotTag};
use crate::GlId;
use crate::ReglResult;

verus! {

/// The right that a framebuffer needs in a registry: to bind to the binding
/// point that draw calls render into.
pub trait FramebufferSupport: BindIf<DrawFramebufferTag> {

}

/// What the library itself does with a framebuffer, and its users do not.
pub trait FramebufferInternal {
    /// The bindings after the framebuffer was made current, from `before`.
    spec fn bound(&self, before: Bindings) -> Bindings;

    /// The calls that make the framebuffer current under the bindings `before`.
    spec fn bind_calls(&self, before: Bindings) -> Seq<GlCall>;

    /// Makes the framebuffer the one that draw calls render into.
    fn bind<S: FramebufferSupport>(&self, support: &mut S, calls: &mut Vec<GlCall>)
        ensures
            final(support)@ == self.bound(old(support)@),
            final(calls)@ == old(calls)@ + self.bind_calls(old(support)@),
    ;
}

/// Names the binding point that draw calls render into.
#[allow(dead_code)]
pub struct DrawFramebufferTag;

impl SlotTag for DrawFramebufferTag {
    open spec fn slot() -> Slot {
        Slot::DrawFramebuffer
    }
}

/// A framebuffer of the hardware. The one with the name 0 is the window's own,
/// which the hardware provides and nobody deletes.
#[derive(Debug)]
pub struct Framebuffer {
    uid: Id,
    gl_id: GlId,
}

impl Framebuffer {
    /// The number of the framebuffer's identity.
    pub closed spec fn id(&self) -> nat {
        self.uid@
    }

    /// The name that the hardware knows the framebuffer by.
    pub closed spec fn handle(&self) -> GlId {
        self.gl_id
    }

    /// The call that binds the framebuffer.
    pub open spec fn bind_call(&self) -> GlCall {
        GlCall::BindFramebuffer { target: DRAW_FRAMEBUFFER, framebuffer: self.handle() }
    }

    /// The calls by which `delete` gives the framebuffer up: the hardware's
    /// framebuffer is deleted unless it is the window's own.
    pub open spec fn delete_calls(&self) -> Seq<GlCall> {
        calls_if(self.handle() != 0, GlCall::DeleteFramebuffers { framebuffer: self.handle() })
    }

    /// The identity of the framebuffer.
    pub fn get_id(&self) -> (uid: &Id)
        ensures
            uid@ == self.id(),
    {
        &self.uid
    }

    /// Takes over the hardware framebuffer `gl_id`, which the caller has just
    /// had generated, and makes it current.
    pub fn new<C: ResourceCreationSupport>(
        support: &mut C,
        gl_id: GlId,
        calls: &mut Vec<GlCall>,
    ) -> (result: ReglResult<Framebuffer>)
        requires
            old(support).id_generator().can_generate(),
        ensures
            result matches Ok(framebuffer) && {
                &&& framebuffer.id() == old(support).id_generator()@ + 1
                &&& framebuffer.handle() == gl_id
                &&& created(
                    *old(support),
                    *final(support),
                    framebuffer.bound(old(support).shared_context()@),
                )
                &&& final(calls)@ == old(calls)@ + framebuffer.bind_calls(
                    old(support).shared_context()@,
                )
            },
    {
        let ghost before = *support;
        let uid = support.generate_id();
        let framebuffer = Framebuffer { uid, gl_id };
        proof {
            before.lemma_generator_apart_from_registry(support.id_generator());
        }
        let shared_context = support.get_shared_context();
        framebuffer.bind(shared_context, calls);
        Ok(framebuffer)
    }

    /// Clears the colour, depth and stencil planes of the framebuffer, which is
    /// made current first.
    pub fn clear<S: FramebufferSupport>(&self, support: &mut S, calls: &mut Vec<GlCall>)
        ensures
            final(support)@ == self.bound(old(support)@),
            final(calls)@ == (old(calls)@ + self.bind_calls(old(support)@)).push(
                GlCall::Clear { mask: COLOR_BUFFER_BIT | DEPTH_BUFFER_BIT | STENCIL_BUFFER_BIT },
            ),
    {
        self.bind(support, calls);
        calls.push(GlCall::Clear { mask: COLOR_BUFFER_BIT | DEPTH_BUFFER_BIT | STENCIL_BUFFER_BIT });
    }

    /// Gives the framebuffer up. The registry is left as it is: what it holds of
    /// this framebuffer can match no other, since no identity is issued twice.
    pub fn delete(self, calls: &mut Vec<GlCall>)
        ensures
            final(calls)@ == old(calls)@ + self.delete_calls(),
    {
        push_if(self.gl_id != 0, GlCall::DeleteFramebuffers { framebuffer: self.gl_id }, calls);
    }

    fn gl_bind(&self) -> (call: GlCall)
        ensures
            call == self.bind_call(),
    {
        GlCall::BindFramebuffer { target: DRAW_FRAMEBUFFER, framebuffer: self.gl_id }
    }
}

impl FramebufferInternal for Framebuffer {
    open spec fn bound(&self, before: Bindings) -> Bindings {
        before.bind(Slot::DrawFramebuffer, self.id())
    }

    open spec fn bind_calls(&self, before: Bindings) -> Seq<GlCall> {
        calls_if(before.needs_bind(Slot::DrawFramebuffer, self.id()), self.bind_call())
    }

    fn bind<S: FramebufferSupport>(&self, support: &mut S, calls: &mut Vec<GlCall>) {
        let bind = support.bind_if(&self.uid);
        push_if(bind, self.gl_bind(), calls);
    }
}

/// The window's own framebuffer. It gets an identity like any other and the
/// hardware name 0; it is not bound here.
pub fn create_default_framebuffer<C: ResourceCreationSupport>(support: &mut C) -> (framebuffer:
    Framebuffer)
    requires
        old(support).id_generator().can_generate(),
    ensures
        framebuffer.id() == old(support).id_generator()@ + 1,
        framebuffer.handle() == 0,
        final(support).id_generator()@ == old(support).id_generator()@ + 1,
        *final(support) == old(support).with_id_generator(final(support).id_generator()),
{
    let uid = support.generate_id();
    Framebuffer { uid, gl_id: 0 }
}

} // verus!
