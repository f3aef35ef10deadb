//! The cache of one binding point, and the traits through which a registry of
//! such caches is used.

use vstd::prelude::*;
use crate::id::{empty_id, Id, WeakId};

verus! {

/// Remembers which object a binding point holds, so that a bind of the object
/// that is already there can be left out.
///
/// The cache is right only as long as every bind to the binding point goes
/// through it. Where something else may have changed the binding point,
/// `bind_none` makes the cache forget what it held.
#[derive(Debug)]
pub struct SimpleTracker {
    current: WeakId,
}

impl View for SimpleTracker {
    type V = nat;

    /// The number of the identity that the binding point is known to hold, or
    /// `empty_id()` where nothing is known.
    closed spec fn view(&self) -> nat {
        self.current@
    }
}

/// What `bind_if` decides for a binding point that holds `current` when
/// `candidate` is to be bound: whether the hardware bind is needed, and what
/// the binding point holds afterwards.
pub open spec fn bind_step(current: nat, candidate: nat) -> (bool, nat) {
    (current != candidate, candidate)
}

impl SimpleTracker {
    /// A tracker that knows nothing of its binding point.
    pub fn new() -> (tracker: SimpleTracker)
        ensures
            tracker@ == empty_id(),
    {
        SimpleTracker { current: WeakId::empty() }
    }

    /// Makes `uid` the current object. Returns whether the caller has to perform
    /// the hardware bind: it has to unless `uid` was current already.
    pub fn bind_if(&mut self, uid: &Id) -> (bind: bool)
        ensures
            (bind, final(self)@) == bind_step(old(self)@, uid@),
            uid@ != empty_id(),
    {
        let candidate: WeakId = uid.weak();
        if self.current != *uid {
            self.current = candidate;
            true
        } else {
            false
        }
    }

    /// Forgets what the binding point holds: the next `bind_if` asks for the bind.
    pub fn bind_none(&mut self)
        ensures
            final(self)@ == empty_id(),
    {
        self.current = WeakId::empty();
    }

    /// The identity that the binding point is known to hold.
    pub fn current(&self) -> (current: WeakId)
        ensures
            current@ == self@,
    {
        self.current
    }
}

/// Binding the same object twice in a row needs one hardware bind, not two: the
/// second `bind_if` never asks for it, and the first does unless the object was
/// current before.
pub proof fn lemma_repeated_bind_is_elided(current: nat, a: nat)
    ensures
        bind_step(current, a).0 == (current != a),
        !bind_step(bind_step(current, a).1, a).0,
{
}

/// What a binding point holds after the objects `requests` were bound to it one
/// after the other, when it held `current` at first.
pub open spec fn held_after(current: nat, requests: Seq<nat>) -> nat {
    if requests.len() == 0 {
        current
    } else {
        requests.last()
    }
}

/// How many hardware binds it takes to bind the objects `requests` one after
/// the other to a binding point that holds `current` at first: one for each
/// request of an object other than the one requested just before.
pub open spec fn binds_needed(current: nat, requests: Seq<nat>) -> nat
    decreases requests.len(),
{
    if requests.len() == 0 {
        0
    } else {
        let earlier = requests.drop_last();
        binds_needed(current, earlier) + if bind_step(
            held_after(current, earlier),
            requests.last(),
        ).0 {
            1nat
        } else {
            0nat
        }
    }
}

/// However often one object is bound in a row, it takes one hardware bind, and
/// none where the object was current before.
pub proof fn lemma_run_of_one_object_binds_once(current: nat, a: nat, times: nat)
    requires
        times > 0,
    ensures
        binds_needed(current, Seq::new(times, |i: int| a)) == if current != a {
            1nat
        } else {
            0nat
        },
    decreases times,
{
    let run = Seq::new(times, |i: int| a);
    if times == 1 {
        assert(run.drop_last() =~= Seq::<nat>::empty());
        assert(binds_needed(current, run.drop_last()) == 0);
    } else {
        assert(run.drop_last() =~= Seq::new((times - 1) as nat, |i: int| a));
        lemma_run_of_one_object_binds_once(current, a, (times - 1) as nat);
        assert(held_after(current, run.drop_last()) == a);
    }
}

/// An object that another one has displaced has to be bound again: of the binds
/// of `a`, then `b`, then `a` again, the second and the third need their
/// hardware bind whatever was current at first, and the first needs it unless
/// `a` was.
pub proof fn lemma_displaced_object_is_rebound(current: nat, a: nat, b: nat)
    requires
        a != b,
    ensures
        bind_step(current, a).0 == (current != a),
        bind_step(bind_step(current, a).1, b).0,
        bind_step(bind_step(bind_step(current, a).1, b).1, a).0,
{
}

/// After `bind_none` any object has to be bound again, also the one that was
/// current just before: the empty identity is that of no object.
pub proof fn lemma_forgotten_object_is_rebound(current: nat, a: nat)
    requires
        a != empty_id(),
    ensures
        bind_step(current, a).1 == a,
        bind_step(empty_id(), a).0,
        bind_step(empty_id(), a).1 == a,
{
}

/// The binding points that the registry keeps a tracker for.
#[derive(Debug, Clone, Copy, PartialEq, Eq, Structural)]
pub enum Slot {
    DrawFramebuffer,
    VertexArray,
    VertexBuffer,
    IndexBuffer,
    UniformBuffer,
    Program,
}

/// What a registry knows: for each binding point the number of the identity it
/// holds, or `empty_id()`.
pub ghost struct Bindings {
    pub draw_framebuffer: nat,
    pub vertex_array: nat,
    pub vertex_buffer: nat,
    pub index_buffer: nat,
    pub uniform_buffer: nat,
    pub program: nat,
    /// Whether the hardware keeps the index buffer binding apart from the
    /// vertex array: it then has to be bound anew with every vertex array.
    pub separate_ibo_binding: bool,
}

impl Bindings {
    /// What `slot` holds.
    pub open spec fn bound(self, slot: Slot) -> nat {
        match slot {
            Slot::DrawFramebuffer => self.draw_framebuffer,
            Slot::VertexArray => self.vertex_array,
            Slot::VertexBuffer => self.vertex_buffer,
            Slot::IndexBuffer => self.index_buffer,
            Slot::UniformBuffer => self.uniform_buffer,
            Slot::Program => self.program,
        }
    }

    /// These bindings with `id` in `slot` and every other binding point as it was.
    pub open spec fn bind(self, slot: Slot, id: nat) -> Bindings {
        match slot {
            Slot::DrawFramebuffer => Bindings { draw_framebuffer: id, ..self },
            Slot::VertexArray => Bindings { vertex_array: id, ..self },
            Slot::VertexBuffer => Bindings { vertex_buffer: id, ..self },
            Slot::IndexBuffer => Bindings { index_buffer: id, ..self },
            Slot::UniformBuffer => Bindings { uniform_buffer: id, ..self },
            Slot::Program => Bindings { program: id, ..self },
        }
    }

    /// Whether the object numbered `id` has to be bound to `slot` by a hardware call.
    pub open spec fn needs_bind(self, slot: Slot, id: nat) -> bool {
        bind_step(self.bound(slot), id).0
    }
}

/// A type that names a binding point. The resource types whose objects have a
/// binding point of their own name it themselves.
pub trait SlotTag {
    /// The binding point that the type names.
    spec fn slot() -> Slot;
}

/// The right to bind objects to the binding point that `T` names.
///
/// The type parameter only tells the binding points apart, so that one registry
/// can give this right for several of them.
pub trait BindIf<T: SlotTag>: View<V = Bindings> {
    /// Makes `uid` the current object of the binding point and leaves the others
    /// alone. Returns whether the caller has to perform the hardware bind.
    fn bind_if(&mut self, uid: &Id) -> (bind: bool)
        ensures
            bind == old(self)@.needs_bind(T::slot(), uid@),
            final(self)@ == old(self)@.bind(T::slot(), uid@),
            uid@ != empty_id(),
    ;
}

/// The right to make the registry forget what the binding point that `T` names holds.
pub trait BindNone<T: SlotTag>: View<V = Bindings> {
    /// Empties the binding point in the registry and leaves the others alone.
    fn bind_none(&mut self)
        ensures
            final(self)@ == old(self)@.bind(T::slot(), empty_id()),
    ;
}

} // verus!
