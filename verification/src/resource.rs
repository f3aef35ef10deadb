//! What the creation of any resource needs from its rendering context.

use vstd::prelude::*;
use std::rc::Rc;
use crate::context::shared::SharedContext;
use crate::id::{GenerateId, IdGenerator};
use crate::tracker::Bindings;

verus! {

/// A context under which resources are created: it issues their identities and
/// lends the registry in which they are bound.
pub trait ResourceCreationSupport: GenerateId {
    /// The registry of the context.
    spec fn shared_context(&self) -> SharedContext;

    /// This value with `shared_context` in the place of its registry, and nothing
    /// else changed.
    spec fn with_shared_context(&self, shared_context: SharedContext) -> Self;

    /// The generator and the registry are apart: a generator put in its place
    /// leaves the registry as it is.
    proof fn lemma_generator_apart_from_registry(&self, generator: IdGenerator)
        ensures
            self.with_id_generator(generator).shared_context() == self.shared_context(),
    ;

    /// Lends the registry. What the borrower leaves in it is the registry of the
    /// context afterwards; nothing else of the context changes.
    fn get_shared_context(&mut self) -> (shared_context: &mut SharedContext)
        ensures
            *shared_context == old(self).shared_context(),
            final(self).shared_context() == *final(shared_context),
            final(self).id_generator() == old(self).id_generator(),
            *final(self) == old(self).with_shared_context(*final(shared_context)),
    ;
}

/// Whether the creation of one resource has taken `before` to `after`: one
/// identity more is issued, the registry holds `bindings`, and nothing else of
/// the context has changed.
pub open spec fn created<C: ResourceCreationSupport>(before: C, after: C, bindings: Bindings) -> bool {
    &&& after.id_generator()@ == before.id_generator()@ + 1
    &&& after.shared_context()@ == bindings
    &&& after == before.with_id_generator(after.id_generator()).with_shared_context(
        after.shared_context(),
    )
}

/// Another owner of the value that `owner` shares. This is `Rc::clone` of the
/// standard library, for which Verus has no specification: it copies the pointer
/// and leaves the value where it is, so both owners see the same value.
#[verifier::external_body]
pub(crate) fn share<T>(owner: &Rc<T>) -> (other: Rc<T>)
    ensures
        other == *owner,
{
    Rc::clone(owner)
}

} // verus!
