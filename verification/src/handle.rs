//! The handle slot: what a bridge keeps alive until the moment it fires.

use crate::callback_kind::Mapping;
use std::rc::Rc;
use vstd::prelude::*;

verus! {

/// Trusted: calls `Rc::clone`, which makes another pointer to the same
/// allocation. To Verus an `Rc` is the value it points to, so the new pointer
/// equals the old one.
#[verifier::external_body]
pub(crate) fn share<T>(handle: &Rc<T>) -> (shared: Rc<T>)
    ensures
        shared == *handle,
{
    Rc::clone(handle)
}

/// One handle of a bridge: the mapping that turns the handle's arguments into
/// an outcome, and the foreign callable through which the runtime reaches it.
///
/// The slot is live while it holds its mapping. Releasing it gives up the
/// mapping and the slot's reference to the foreign callable in one step, and a
/// released slot stays released.
pub struct HandleSlot<M, H> {
    mapping: Option<M>,
    foreign: Option<Rc<H>>,
}

impl<M, H> HandleSlot<M, H> {
    /// The mapping, while the slot is live.
    pub closed spec fn mapping(&self) -> Option<M> {
        self.mapping
    }

    /// The foreign callable, once attached and until the slot is released.
    pub closed spec fn foreign(&self) -> Option<Rc<H>> {
        self.foreign
    }

    /// Whether the slot still holds its mapping.
    pub open spec fn live(&self) -> bool {
        self.mapping() is Some
    }

    /// A released slot holds nothing.
    pub open spec fn wf(&self) -> bool {
        self.mapping() is None ==> self.foreign() is None
    }

    /// A live slot around `mapping`, with no foreign callable yet.
    pub fn new(mapping: M) -> (slot: Self)
        ensures
            slot.wf(),
            slot.mapping() == Some(mapping),
            slot.foreign() is None,
    {
        HandleSlot { mapping: Some(mapping), foreign: None }
    }

    /// Whether the slot still holds its mapping.
    pub fn is_live(&self) -> (b: bool)
        ensures
            b == self.live(),
    {
        self.mapping.is_some()
    }

    /// Whether the slot holds a foreign callable.
    pub fn has_foreign(&self) -> (b: bool)
        ensures
            b == (self.foreign() is Some),
    {
        self.foreign.is_some()
    }

    /// Puts the foreign callable into a live slot, in place of any earlier
    /// one, and says whether it did. A released slot takes none and lets
    /// `foreign` go at once: it could never let go of it later.
    pub fn attach(&mut self, foreign: Rc<H>) -> (attached: bool)
        requires
            old(self).wf(),
        ensures
            final(self).wf(),
            attached == old(self).live(),
            final(self).mapping() == old(self).mapping(),
            final(self).foreign() == (if attached {
                Some(foreign)
            } else {
                None
            }),
    {
        if self.mapping.is_some() {
            self.foreign = Some(foreign);
            true
        } else {
            false
        }
    }

    /// Another owning reference to the foreign callable.
    pub fn foreign_handle(&self) -> (shared: Rc<H>)
        requires
            self.foreign() is Some,
        ensures
            Some(shared) == self.foreign(),
    {
        share(self.foreign.as_ref().unwrap())
    }

    /// The mapping of a live slot.
    pub fn mapping_ref(&self) -> (mapping: &M)
        requires
            self.live(),
        ensures
            Some(*mapping) == self.mapping(),
    {
        self.mapping.as_ref().unwrap()
    }

    /// The number of values the mapping of a live slot takes.
    pub fn arity<V>(&self) -> (n: usize) where M: Mapping<V>
        requires
            self.live(),
        ensures
            n == self.mapping().unwrap().spec_arity(),
    {
        self.mapping.as_ref().unwrap().arity()
    }

    /// Releases the slot and hands back the mapping it held, if it was live.
    pub fn release(&mut self) -> (mapping: Option<M>)
        ensures
            final(self).wf(),
            final(self).mapping() is None,
            final(self).foreign() is None,
            mapping == old(self).mapping(),
    {
        self.foreign = None;
        self.mapping.take()
    }
}

} // verus!
