//! Identities of bindable objects.
//!
//! The hardware may hand out the name of a deleted object again, so a cache of
//! what is bound cannot go by hardware names. It goes by identities: numbers that
//! one generator issues in increasing order and never twice.

use vstd::prelude::*;
use vstd::std_specs::cmp::PartialEqSpecImpl;

verus! {

/// The identity of one live object. It cannot be copied: whoever holds it holds
/// the object.
#[derive(Debug)]
pub struct Id {
    unique_id: u32,
}

/// A copy of an identity's number, for comparisons. It proves nothing about the
/// object it was taken from.
#[derive(Debug, Clone, Copy)]
pub struct WeakId {
    id: u32,
}

/// The source of identities. One generator serves one rendering context.
#[derive(Debug)]
pub struct IdGenerator {
    counter: u32,
}

impl View for Id {
    type V = nat;

    /// The number of the identity, which is at least 1.
    closed spec fn view(&self) -> nat {
        self.unique_id as nat
    }
}

impl View for WeakId {
    type V = nat;

    /// The number of the identity it was taken from, or 0 for the empty one.
    closed spec fn view(&self) -> nat {
        self.id as nat
    }
}

impl View for IdGenerator {
    type V = nat;

    /// How many identities the generator has issued.
    closed spec fn view(&self) -> nat {
        self.counter as nat
    }
}

/// The number that stands for "no object".
pub open spec fn empty_id() -> nat {
    0
}

/// The largest number an identity can have.
pub open spec fn max_id() -> nat {
    u32::MAX as nat
}

impl Id {
    #[verifier::type_invariant]
    closed spec fn is_issued(&self) -> bool {
        self.unique_id > 0
    }

    /// A copy of the number of this identity.
    pub fn weak(&self) -> (weak: WeakId)
        ensures
            weak@ == self@,
            weak@ != empty_id(),
            weak@ <= max_id(),
    {
        proof {
            use_type_invariant(self);
        }
        WeakId { id: self.unique_id }
    }
}

impl PartialEq for Id {
    fn eq(&self, other: &Id) -> (equal: bool) {
        self.unique_id == other.unique_id
    }
}

impl PartialEqSpecImpl for Id {
    open spec fn obeys_eq_spec() -> bool {
        true
    }

    open spec fn eq_spec(&self, other: &Id) -> bool {
        self@ == other@
    }
}

impl PartialEq<WeakId> for Id {
    fn eq(&self, other: &WeakId) -> (equal: bool) {
        self.unique_id == other.id
    }
}

impl PartialEqSpecImpl<WeakId> for Id {
    open spec fn obeys_eq_spec() -> bool {
        true
    }

    open spec fn eq_spec(&self, other: &WeakId) -> bool {
        self@ == other@
    }
}

impl Eq for Id {

}

impl WeakId {
    /// The weak identity that equals no identity.
    pub fn empty() -> (weak: WeakId)
        ensures
            weak@ == empty_id(),
    {
        WeakId { id: 0 }
    }
}

impl PartialEq for WeakId {
    fn eq(&self, other: &WeakId) -> (equal: bool) {
        self.id == other.id
    }
}

impl PartialEqSpecImpl for WeakId {
    open spec fn obeys_eq_spec() -> bool {
        true
    }

    open spec fn eq_spec(&self, other: &WeakId) -> bool {
        self@ == other@
    }
}

impl PartialEq<Id> for WeakId {
    fn eq(&self, other: &Id) -> (equal: bool) {
        self.id == other.unique_id
    }
}

impl PartialEqSpecImpl<Id> for WeakId {
    open spec fn obeys_eq_spec() -> bool {
        true
    }

    open spec fn eq_spec(&self, other: &Id) -> bool {
        self@ == other@
    }
}

impl Eq for WeakId {

}

impl IdGenerator {
    /// The identities issued so far, in the order of their issue: 1, 2, 3 and so on.
    pub open spec fn issued(&self) -> Seq<nat> {
        Seq::new(self@, |i: int| (i + 1) as nat)
    }

    /// Whether the generator has a number left to issue.
    pub open spec fn can_generate(&self) -> bool {
        self@ < max_id()
    }

    /// A generator that has issued nothing.
    pub fn new() -> (generator: IdGenerator)
        ensures
            generator@ == 0,
    {
        IdGenerator { counter: 0 }
    }

    /// Whether the generator has a number left to issue. It has for the first
    /// `u32::MAX` identities.
    pub fn has_next(&self) -> (can: bool)
        ensures
            can == self.can_generate(),
    {
        self.counter < u32::MAX
    }

    /// Issues the next identity. It is not the empty one and none of those
    /// issued before. The generator has to have a number left: it never wraps
    /// around to numbers that it has issued.
    pub fn generate_id(&mut self) -> (id: Id)
        requires
            old(self).can_generate(),
        ensures
            id@ == old(self)@ + 1,
            final(self)@ == old(self)@ + 1,
            final(self).issued() == old(self).issued().push(id@),
            id@ != empty_id(),
            !old(self).issued().contains(id@),
    {
        self.counter += 1;
        assert(self.issued() =~= old(self).issued().push((old(self)@ + 1) as nat));
        assert forall|i: int| 0 <= i < old(self).issued().len() implies old(self).issued()[i]
            != old(self)@ + 1 by {}
        Id { unique_id: self.counter }
    }

    /// No identity is issued twice, and none is the empty one: of the identities
    /// that a generator has issued, any two differ.
    pub proof fn lemma_issued_ids_differ(&self, i: int, j: int)
        requires
            0 <= i < self.issued().len(),
            0 <= j < self.issued().len(),
            i != j,
        ensures
            self.issued()[i] != self.issued()[j],
            self.issued()[i] != empty_id(),
    {
    }
}

/// Something that holds an identity generator and issues identities from it.
pub trait GenerateId: Sized {
    /// The generator that the identities come from.
    spec fn id_generator(&self) -> IdGenerator;

    /// This value with `generator` in the place of its generator, and nothing else changed.
    spec fn with_id_generator(&self, generator: IdGenerator) -> Self;

    /// Issues the next identity of the generator.
    fn generate_id(&mut self) -> (id: Id)
        requires
            old(self).id_generator().can_generate(),
        ensures
            id@ == old(self).id_generator()@ + 1,
            final(self).id_generator()@ == old(self).id_generator()@ + 1,
            final(self).id_generator().issued() == old(self).id_generator().issued().push(id@),
            *final(self) == old(self).with_id_generator(final(self).id_generator()),
    ;
}

impl GenerateId for IdGenerator {
    open spec fn id_generator(&self) -> IdGenerator {
        *self
    }

    open spec fn with_id_generator(&self, generator: IdGenerator) -> IdGenerator {
        generator
    }

    fn generate_id(&mut self) -> (id: Id) {
        IdGenerator::generate_id(self)
    }
}

} // verus!
