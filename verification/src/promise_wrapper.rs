//! The bridge with a resolve handle and a reject handle, each of one
//! argument and each behind a foreign callable of its own.

use crate::boundary::Boundary;
use crate::callback_kind::{CallbackKind, Mapping};
use crate::closure_kind::{converts, function_of};
use crate::handle::HandleSlot;
use crate::outcome::{CellState, OutcomeCell, Phase, Polled};
use js_sys::Function;
use std::rc::Rc;
use std::task::Waker;
use vstd::prelude::*;
use wasm_bindgen::closure::Closure;

verus! {

/// A bridge in the shape of a promise: the runtime calls `resolve` with a
/// value or `reject` with a value, once, and never both.
pub struct PromiseWrapper<V, R, J, H> {
    resolve: HandleSlot<R, H>,
    reject: HandleSlot<J, H>,
    cell: OutcomeCell<V>,
}

impl<V, R, J, H> PromiseWrapper<V, R, J, H> {
    /// The content of the outcome cell.
    pub closed spec fn cell(&self) -> CellState<V> {
        self.cell@
    }

    /// The mapping of the resolve handle, while the handles are live.
    pub closed spec fn resolve_mapping(&self) -> Option<R> {
        self.resolve.mapping()
    }

    /// The mapping of the reject handle, while the handles are live.
    pub closed spec fn reject_mapping(&self) -> Option<J> {
        self.reject.mapping()
    }

    /// The foreign callable of the resolve handle, while the bridge holds it.
    pub closed spec fn resolve_handle(&self) -> Option<Rc<H>> {
        self.resolve.foreign()
    }

    /// The foreign callable of the reject handle, while the bridge holds it.
    pub closed spec fn reject_handle(&self) -> Option<Rc<H>> {
        self.reject.foreign()
    }

    /// Both handles are live exactly until the delivery, and a bridge whose
    /// handles are gone holds no foreign callable either.
    pub open spec fn wf(&self) -> bool {
        &&& self.cell().wf()
        &&& self.resolve_mapping() is Some <==> !self.cell().delivered
        &&& self.reject_mapping() is Some <==> !self.cell().delivered
        &&& self.resolve_mapping() is None ==> self.resolve_handle() is None
        &&& self.reject_mapping() is None ==> self.reject_handle() is None
    }

    /// Whether the bridge still awaits its one delivery.
    pub open spec fn armed(&self) -> bool {
        self.cell().phase() == Phase::Armed
    }

    /// That nothing of either handle is left.
    pub open spec fn released(&self) -> bool {
        &&& self.resolve_mapping() is None
        &&& self.reject_mapping() is None
        &&& self.resolve_handle() is None
        &&& self.reject_handle() is None
    }

    /// That `after` is this bridge once `val` has been delivered: the cell
    /// holds `val`, and nothing of either handle is left.
    pub open spec fn finished(&self, val: Result<V, V>, after: Self) -> bool {
        &&& after.cell() == self.cell().deliver(val)
        &&& after.released()
    }

    /// An armed bridge whose resolve handle maps by `resolve` and whose reject
    /// handle maps by `reject`, with no foreign callables yet.
    pub fn from(resolve: R, reject: J) -> (wrapper: Self)
        ensures
            wrapper.wf(),
            wrapper.cell() == CellState::<V>::empty(),
            wrapper.resolve_mapping() == Some(resolve),
            wrapper.reject_mapping() == Some(reject),
            wrapper.resolve_handle() is None,
            wrapper.reject_handle() is None,
    {
        PromiseWrapper {
            resolve: HandleSlot::new(resolve),
            reject: HandleSlot::new(reject),
            cell: OutcomeCell::new(),
        }
    }

    /// Where the bridge stands.
    pub fn phase(&self) -> (phase: Phase)
        ensures
            phase == self.cell().phase(),
    {
        self.cell.phase()
    }

    /// Whether a handle of the bridge may still fire.
    pub fn is_armed(&self) -> (b: bool)
        requires
            self.wf(),
        ensures
            b == self.armed(),
    {
        self.resolve.is_live()
    }

    /// Whether the bridge holds the foreign callable of the resolve handle.
    pub fn has_resolve_closure(&self) -> (b: bool)
        ensures
            b == (self.resolve_handle() is Some),
    {
        self.resolve.has_foreign()
    }

    /// Whether the bridge holds the foreign callable of the reject handle.
    pub fn has_reject_closure(&self) -> (b: bool)
        ensures
            b == (self.reject_handle() is Some),
    {
        self.reject.has_foreign()
    }

    /// Gives the bridge the foreign callable of its resolve handle, in place
    /// of any earlier one, and says whether the bridge took it. An armed
    /// bridge does, and keeps it alive until a handle fires. A bridge that has
    /// fired lets `closure` go at once.
    pub fn attach_resolve(&mut self, closure: Rc<H>) -> (attached: bool)
        requires
            old(self).wf(),
        ensures
            final(self).wf(),
            attached == old(self).armed(),
            final(self).cell() == old(self).cell(),
            final(self).resolve_mapping() == old(self).resolve_mapping(),
            final(self).reject_mapping() == old(self).reject_mapping(),
            final(self).resolve_handle() == (if attached {
                Some(closure)
            } else {
                None
            }),
            final(self).reject_handle() == old(self).reject_handle(),
    {
        self.resolve.attach(closure)
    }

    /// Gives the bridge the foreign callable of its reject handle, in place of
    /// any earlier one, and says whether the bridge took it. An armed bridge
    /// does, and keeps it alive until a handle fires. A bridge that has fired
    /// lets `closure` go at once.
    pub fn attach_reject(&mut self, closure: Rc<H>) -> (attached: bool)
        requires
            old(self).wf(),
        ensures
            final(self).wf(),
            attached == old(self).armed(),
            final(self).cell() == old(self).cell(),
            final(self).resolve_mapping() == old(self).resolve_mapping(),
            final(self).reject_mapping() == old(self).reject_mapping(),
            final(self).resolve_handle() == old(self).resolve_handle(),
            final(self).reject_handle() == (if attached {
                Some(closure)
            } else {
                None
            }),
    {
        self.reject.attach(closure)
    }

    /// Another owning reference to the foreign callable of the resolve handle.
    pub fn get_resolve_closure(&self) -> (closure: Rc<H>)
        requires
            self.resolve_handle() is Some,
        ensures
            Some(closure) == self.resolve_handle(),
    {
        self.resolve.foreign_handle()
    }

    /// Another owning reference to the foreign callable of the reject handle.
    pub fn get_reject_closure(&self) -> (closure: Rc<H>)
        requires
            self.reject_handle() is Some,
        ensures
            Some(closure) == self.reject_handle(),
    {
        self.reject.foreign_handle()
    }

    /// Delivers `val` and releases both handles, in one step. Hands back the
    /// wake handle of the waiting task, for [`crate::outcome::notify`].
    ///
    /// Only an armed bridge takes a delivery.
    pub fn finish(&mut self, val: Result<V, V>) -> (task: Option<Waker>)
        requires
            old(self).wf(),
            old(self).armed(),
        ensures
            final(self).wf(),
            old(self).finished(val, *final(self)),
            task == old(self).cell().waiter,
    {
        let _ = self.resolve.release();
        let _ = self.reject.release();
        self.cell.deliver(val)
    }

    /// Takes the outcome if it has been delivered. Otherwise keeps `waker`,
    /// in place of any earlier one, and reports `Pending`. The handles are not
    /// touched.
    ///
    /// A bridge whose outcome has been taken is spent and is not polled again.
    pub fn poll(&mut self, waker: Waker) -> (polled: Polled<V>)
        requires
            old(self).wf(),
            old(self).cell().phase() != Phase::Observed,
        ensures
            final(self).wf(),
            final(self).cell() == old(self).cell().poll(waker),
            polled == old(self).cell().poll_result(),
            final(self).resolve_mapping() == old(self).resolve_mapping(),
            final(self).reject_mapping() == old(self).reject_mapping(),
            final(self).resolve_handle() == old(self).resolve_handle(),
            final(self).reject_handle() == old(self).reject_handle(),
    {
        self.cell.poll(waker)
    }
}

impl<V, R: Mapping<V>, J: Mapping<V>, H> PromiseWrapper<V, R, J, H> {
    /// Whether the resolve handle may be called with `value` now.
    pub open spec fn can_resolve(&self, value: V) -> bool {
        &&& self.armed()
        &&& self.resolve_mapping() is Some
        &&& self.resolve_mapping().unwrap().accepts(seq![value])
    }

    /// Whether the reject handle may be called with `value` now.
    pub open spec fn can_reject(&self, value: V) -> bool {
        &&& self.armed()
        &&& self.reject_mapping() is Some
        &&& self.reject_mapping().unwrap().accepts(seq![value])
    }

    /// That `after` is this bridge once the resolve handle has been called
    /// with `value`.
    pub open spec fn resolved(&self, value: V, after: Self) -> bool {
        &&& after.cell().outcome is Some
        &&& self.resolve_mapping().unwrap().maps(seq![value], after.cell().outcome.unwrap())
        &&& self.finished(after.cell().outcome.unwrap(), after)
    }

    /// That `after` is this bridge once the reject handle has been called
    /// with `value`.
    pub open spec fn rejected(&self, value: V, after: Self) -> bool {
        &&& after.cell().outcome is Some
        &&& self.reject_mapping().unwrap().maps(seq![value], after.cell().outcome.unwrap())
        &&& self.finished(after.cell().outcome.unwrap(), after)
    }

    /// The resolve handle is called with `value`: applies its mapping,
    /// delivers what it gives and releases both handles. Hands back the wake
    /// handle of the waiting task, for [`crate::outcome::notify`].
    pub fn resolve(&mut self, value: V) -> (task: Option<Waker>)
        requires
            old(self).wf(),
            old(self).can_resolve(value),
        ensures
            final(self).wf(),
            old(self).resolved(value, *final(self)),
            task == old(self).cell().waiter,
    {
        let mapping = self.resolve.release().unwrap();
        let _ = self.reject.release();
        let mut args = Vec::new();
        args.push(value);
        assert(args@ =~= seq![value]);
        let val = mapping.apply(args);
        self.cell.deliver(val)
    }

    /// The reject handle is called with `value`: applies its mapping,
    /// delivers what it gives and releases both handles. Hands back the wake
    /// handle of the waiting task, for [`crate::outcome::notify`].
    pub fn reject(&mut self, value: V) -> (task: Option<Waker>)
        requires
            old(self).wf(),
            old(self).can_reject(value),
        ensures
            final(self).wf(),
            old(self).rejected(value, *final(self)),
            task == old(self).cell().waiter,
    {
        let mapping = self.reject.release().unwrap();
        let _ = self.resolve.release();
        let mut args = Vec::new();
        args.push(value);
        assert(args@ =~= seq![value]);
        let val = mapping.apply(args);
        self.cell.deliver(val)
    }
}

impl<V: Boundary, F0, F1, F2, F3, F4, F5, F6, G0, G1, G2, G3, G4, G5, G6, H> PromiseWrapper<
    V,
    CallbackKind<F0, F1, F2, F3, F4, F5, F6>,
    CallbackKind<G0, G1, G2, G3, G4, G5, G6>,
    H,
> {
    /// The plain promise: what `resolve` is called with comes back as `Ok`,
    /// what `reject` is called with comes back as `Err`.
    pub fn new() -> (wrapper: Self)
        ensures
            wrapper.wf(),
            wrapper.cell() == CellState::<V>::empty(),
            wrapper.resolve_mapping() == Some(CallbackKind::<F0, F1, F2, F3, F4, F5, F6>::Identity),
            wrapper.reject_mapping() == Some(CallbackKind::<G0, G1, G2, G3, G4, G5, G6>::Reject),
            wrapper.resolve_handle() is None,
            wrapper.reject_handle() is None,
    {
        PromiseWrapper::from(CallbackKind::Identity, CallbackKind::Reject)
    }
}

impl<V, R, J, T: ?Sized> PromiseWrapper<V, R, J, Closure<T>> {
    /// The foreign callable of the resolve handle as a plain JavaScript
    /// function: the conversion of the resolve closure.
    pub fn get_resolve_function(&self) -> (function: Function)
        requires
            self.resolve_handle() is Some,
        ensures
            converts(&*self.resolve_handle().unwrap(), function),
    {
        let closure = self.resolve.foreign_handle();
        function_of(&closure)
    }

    /// The foreign callable of the reject handle as a plain JavaScript
    /// function: the conversion of the reject closure.
    pub fn get_reject_function(&self) -> (function: Function)
        requires
            self.reject_handle() is Some,
        ensures
            converts(&*self.reject_handle().unwrap(), function),
    {
        let closure = self.reject.foreign_handle();
        function_of(&closure)
    }
}

/// Once the bridge has left `Armed` it holds nothing of either handle.
pub proof fn lemma_promise_released_unless_armed<V, R, J, H>(wrapper: PromiseWrapper<V, R, J, H>)
    requires
        wrapper.wf(),
        !wrapper.armed(),
    ensures
        wrapper.released(),
{
}

/// After either handle has been called, neither can be called, and the next
/// poll is answered `Ready` with the delivered outcome.
pub proof fn lemma_promise_settles_once<V, R: Mapping<V>, J: Mapping<V>, H>(
    before: PromiseWrapper<V, R, J, H>,
    value: V,
    after: PromiseWrapper<V, R, J, H>,
)
    requires
        before.wf(),
        (before.can_resolve(value) && before.resolved(value, after)) || (before.can_reject(value)
            && before.rejected(value, after)),
    ensures
        after.cell().phase() == Phase::Fired,
        after.released(),
        after.cell().poll_result() == Polled::Ready(after.cell().outcome.unwrap()),
        forall|more: V| !after.can_resolve(more) && !after.can_reject(more),
{
}

} // verus!
