//! The bridge with one handle.

use crate::boundary::Boundary;
use crate::callback_kind::{CallbackKind, Mapping};
use crate::closure_kind::{converts, function_of};
use crate::handle::HandleSlot;
use crate::outcome::{CellState, OutcomeCell, Phase, Polled};
use js_sys::Function;
use std::rc::Rc;
use std::task::Waker;
use vstd::prelude::*;
use wasm_bindgen::closure::Closure;

verus! {

/// The state that the awaiting task and the handle of a bridge share: the
/// outcome cell and the handle slot, moving together.
pub struct CallbackInner<V, M, H> {
    slot: HandleSlot<M, H>,
    cell: OutcomeCell<V>,
}

impl<V, M, H> CallbackInner<V, M, H> {
    /// The content of the outcome cell.
    pub closed spec fn cell(&self) -> CellState<V> {
        self.cell@
    }

    /// The mapping of the handle, while the handle is live.
    pub closed spec fn mapping(&self) -> Option<M> {
        self.slot.mapping()
    }

    /// The foreign callable, while the bridge holds one.
    pub closed spec fn handle(&self) -> Option<Rc<H>> {
        self.slot.foreign()
    }

    /// The handle is live exactly until the delivery, and a bridge whose
    /// handle is gone holds no foreign callable either.
    pub open spec fn wf(&self) -> bool {
        &&& self.cell().wf()
        &&& self.mapping() is Some <==> !self.cell().delivered
        &&& self.mapping() is None ==> self.handle() is None
    }

    /// Whether the bridge still awaits its one delivery.
    pub open spec fn armed(&self) -> bool {
        self.cell().phase() == Phase::Armed
    }

    /// That `after` is this bridge once `val` has been delivered: the cell
    /// holds `val`, and nothing of the handle is left.
    pub open spec fn finished(&self, val: Result<V, V>, after: Self) -> bool {
        &&& after.cell() == self.cell().deliver(val)
        &&& after.mapping() is None
        &&& after.handle() is None
    }

    /// An armed bridge around `mapping`, with no foreign callable yet.
    pub fn new(mapping: M) -> (inner: Self)
        ensures
            inner.wf(),
            inner.cell() == CellState::<V>::empty(),
            inner.mapping() == Some(mapping),
            inner.handle() is None,
    {
        CallbackInner { slot: HandleSlot::new(mapping), cell: OutcomeCell::new() }
    }

    /// Where the bridge stands.
    pub fn phase(&self) -> (phase: Phase)
        ensures
            phase == self.cell().phase(),
    {
        self.cell.phase()
    }

    /// Whether a handle of the bridge may still fire.
    pub fn is_armed(&self) -> (b: bool)
        requires
            self.wf(),
        ensures
            b == self.armed(),
    {
        self.slot.is_live()
    }

    /// Delivers `val` and releases the handle, in one step. Hands back the
    /// wake handle of the waiting task, for [`crate::outcome::notify`].
    ///
    /// Only an armed bridge takes a delivery.
    pub fn finish(&mut self, val: Result<V, V>) -> (task: Option<Waker>)
        requires
            old(self).wf(),
            old(self).armed(),
        ensures
            final(self).wf(),
            old(self).finished(val, *final(self)),
            task == old(self).cell().waiter,
    {
        let _ = self.slot.release();
        self.cell.deliver(val)
    }
}

/// A bridge with one handle: what the awaiting task holds.
pub struct Callback<V, M, H> {
    inner: CallbackInner<V, M, H>,
}

impl<V, M, H> Callback<V, M, H> {
    /// The state behind the bridge.
    pub closed spec fn inner(&self) -> CallbackInner<V, M, H> {
        self.inner
    }

    /// The shared state is well formed.
    pub open spec fn wf(&self) -> bool {
        self.inner().wf()
    }

    /// The content of the outcome cell.
    pub open spec fn cell(&self) -> CellState<V> {
        self.inner().cell()
    }

    /// The mapping of the handle, while the handle is live.
    pub open spec fn mapping(&self) -> Option<M> {
        self.inner().mapping()
    }

    /// The foreign callable, while the bridge holds one.
    pub open spec fn handle(&self) -> Option<Rc<H>> {
        self.inner().handle()
    }

    /// Whether the bridge still awaits its one delivery.
    pub open spec fn armed(&self) -> bool {
        self.inner().armed()
    }

    /// An armed bridge whose handle maps its arguments by `mapping`, with no
    /// foreign callable yet.
    pub fn new(mapping: M) -> (callback: Self)
        ensures
            callback.wf(),
            callback.cell() == CellState::<V>::empty(),
            callback.mapping() == Some(mapping),
            callback.handle() is None,
    {
        Callback { inner: CallbackInner::new(mapping) }
    }

    /// Where the bridge stands.
    pub fn phase(&self) -> (phase: Phase)
        ensures
            phase == self.cell().phase(),
    {
        self.inner.cell.phase()
    }

    /// Whether a handle of the bridge may still fire.
    pub fn is_armed(&self) -> (b: bool)
        requires
            self.wf(),
        ensures
            b == self.armed(),
    {
        self.inner.slot.is_live()
    }

    /// Whether the bridge holds the foreign callable of its handle.
    pub fn has_handle(&self) -> (b: bool)
        ensures
            b == (self.handle() is Some),
    {
        self.inner.slot.has_foreign()
    }

    /// Gives the bridge the foreign callable that stands for its handle, in
    /// place of any earlier one, and says whether the bridge took it. An armed
    /// bridge does, and keeps it alive until the handle fires. A bridge that
    /// has fired lets `handle` go at once.
    pub fn attach(&mut self, handle: Rc<H>) -> (attached: bool)
        requires
            old(self).wf(),
        ensures
            final(self).wf(),
            attached == old(self).armed(),
            final(self).cell() == old(self).cell(),
            final(self).mapping() == old(self).mapping(),
            final(self).handle() == (if attached {
                Some(handle)
            } else {
                None
            }),
    {
        self.inner.slot.attach(handle)
    }

    /// Another owning reference to the foreign callable. There is one to share
    /// from the moment it is attached until the handle fires.
    pub fn as_closure(&self) -> (handle: Rc<H>)
        requires
            self.handle() is Some,
        ensures
            Some(handle) == self.handle(),
    {
        self.inner.slot.foreign_handle()
    }

    /// Takes the outcome if it has been delivered. Otherwise keeps `waker`,
    /// in place of any earlier one, and reports `Pending`. The handle is not
    /// touched.
    ///
    /// A bridge whose outcome has been taken is spent and is not polled again.
    pub fn poll(&mut self, waker: Waker) -> (polled: Polled<V>)
        requires
            old(self).wf(),
            old(self).cell().phase() != Phase::Observed,
        ensures
            final(self).wf(),
            final(self).cell() == old(self).cell().poll(waker),
            polled == old(self).cell().poll_result(),
            final(self).mapping() == old(self).mapping(),
            final(self).handle() == old(self).handle(),
    {
        self.inner.cell.poll(waker)
    }

    /// Delivers `val` as it is and releases the handle; see
    /// [`CallbackInner::finish`].
    pub fn finish(&mut self, val: Result<V, V>) -> (task: Option<Waker>)
        requires
            old(self).wf(),
            old(self).armed(),
        ensures
            final(self).wf(),
            old(self).inner().finished(val, final(self).inner()),
            task == old(self).cell().waiter,
    {
        self.inner.finish(val)
    }
}

impl<V, M: Mapping<V>, H> Callback<V, M, H> {
    /// Whether the handle may be called with `args` now.
    pub open spec fn can_fire(&self, args: Seq<V>) -> bool {
        &&& self.armed()
        &&& self.mapping() is Some
        &&& self.mapping().unwrap().accepts(args)
    }

    /// That `after` is this bridge once its handle has been called with
    /// `args`: the mapping has given an outcome for them, that outcome has
    /// been delivered, and nothing of the handle is left.
    pub open spec fn fired(&self, args: Seq<V>, after: Self) -> bool {
        &&& after.cell().outcome is Some
        &&& self.mapping().unwrap().maps(args, after.cell().outcome.unwrap())
        &&& self.inner().finished(after.cell().outcome.unwrap(), after.inner())
    }

    /// The number of values the handle is called with.
    pub fn arity(&self) -> (n: usize)
        requires
            self.wf(),
            self.armed(),
        ensures
            n == self.mapping().unwrap().spec_arity(),
    {
        self.inner.slot.arity()
    }

    /// The handle is called with `args`: applies the mapping, delivers what it
    /// gives and releases the handle. Hands back the wake handle of the
    /// waiting task, for [`crate::outcome::notify`].
    ///
    /// Only the handle of an armed bridge fires. Firing disarms the bridge, so
    /// no handle fires twice.
    pub fn fire(&mut self, args: Vec<V>) -> (task: Option<Waker>)
        requires
            old(self).wf(),
            old(self).can_fire(args@),
        ensures
            final(self).wf(),
            old(self).fired(args@, *final(self)),
            task == old(self).cell().waiter,
    {
        let mapping = self.inner.slot.release().unwrap();
        let val = mapping.apply(args);
        self.inner.cell.deliver(val)
    }
}

impl<V: Boundary, F0, F1, F2, F3, F4, F5, F6, H> Callback<
    V,
    CallbackKind<F0, F1, F2, F3, F4, F5, F6>,
    H,
> {
    /// A bridge with a handle of two arguments, `(err, data)`: the outcome is
    /// `Ok(data)` when `err` is the null or the undefined sentinel, and
    /// `Err(err)` otherwise.
    pub fn default_node() -> (callback: Self)
        ensures
            callback.wf(),
            callback.cell() == CellState::<V>::empty(),
            callback.mapping() == Some(CallbackKind::<F0, F1, F2, F3, F4, F5, F6>::NodeStyle),
            callback.handle() is None,
    {
        Callback::new(CallbackKind::NodeStyle)
    }
}

/// The default bridge has a handle of one argument, and its outcome is always
/// `Ok` of that argument.
impl<V: Boundary, F0, F1, F2, F3, F4, F5, F6, H> Default for Callback<
    V,
    CallbackKind<F0, F1, F2, F3, F4, F5, F6>,
    H,
> {
    fn default() -> (callback: Self)
        ensures
            callback.wf(),
            callback.cell() == CellState::<V>::empty(),
            callback.mapping() == Some(CallbackKind::<F0, F1, F2, F3, F4, F5, F6>::Identity),
            callback.handle() is None,
    {
        Callback::new(CallbackKind::Identity)
    }
}

impl<V, M, T: ?Sized> Callback<V, M, Closure<T>> {
    /// The foreign callable as a plain JavaScript function, for a runtime that
    /// does not take the typed closure: the conversion of the closure that
    /// the bridge holds.
    pub fn as_function(&self) -> (function: Function)
        requires
            self.handle() is Some,
        ensures
            converts(&*self.handle().unwrap(), function),
    {
        let closure = self.inner.slot.foreign_handle();
        function_of(&closure)
    }
}

/// Once the bridge has left `Armed` it holds neither the mapping nor the
/// foreign callable: whoever observes the callable without owning it finds it
/// gone, unless someone else shares it.
pub proof fn lemma_released_unless_armed<V, M, H>(callback: Callback<V, M, H>)
    requires
        callback.wf(),
        !callback.armed(),
    ensures
        callback.mapping() is None,
        callback.handle() is None,
{
}

/// After its handle has fired, a bridge cannot fire again, and the next poll
/// is answered `Ready` with an outcome that the mapping gives for the
/// arguments of that one call.
pub proof fn lemma_fire_then_poll<V, M: Mapping<V>, H>(
    before: Callback<V, M, H>,
    args: Seq<V>,
    after: Callback<V, M, H>,
)
    requires
        before.wf(),
        before.can_fire(args),
        before.fired(args, after),
    ensures
        after.cell().phase() == Phase::Fired,
        forall|more: Seq<V>| !after.can_fire(more),
        exists|out: Result<V, V>|
            before.mapping().unwrap().maps(args, out) && after.cell().poll_result()
                == Polled::Ready(out),
{
    let out = after.cell().outcome.unwrap();
    assert(before.mapping().unwrap().maps(args, out) && after.cell().poll_result()
        == Polled::Ready(out));
}

} // verus!
