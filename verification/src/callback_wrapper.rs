//! The bridge with one handle whose arity is a tag rather than a type.

use crate::boundary::Boundary;
use crate::callback::Callback;
use crate::callback_kind::{CallbackKind, Mapping};
use crate::closure_kind::ClosureKind;
use crate::outcome::{CellState, Phase, Polled};
use js_sys::Function;
use std::rc::Rc;
use std::task::Waker;
use vstd::prelude::*;
use wasm_bindgen::closure::Closure;

verus! {

/// A bridge with one handle. The mapping behind the handle and the foreign
/// callable in front of it both carry their arity as a tag, and the bridge
/// sees to it that the two tags agree.
pub struct CallbackWrapper<V, M, C> {
    callback: Callback<V, M, C>,
}

impl<V, M, C> CallbackWrapper<V, M, C> {
    /// The bridge underneath.
    pub closed spec fn callback(&self) -> Callback<V, M, C> {
        self.callback
    }

    /// The content of the outcome cell.
    pub open spec fn cell(&self) -> CellState<V> {
        self.callback().cell()
    }

    /// The mapping of the handle, while the handle is live.
    pub open spec fn mapping(&self) -> Option<M> {
        self.callback().mapping()
    }

    /// The foreign callable, while the bridge holds one.
    pub open spec fn handle(&self) -> Option<Rc<C>> {
        self.callback().handle()
    }

    /// Whether the bridge still awaits its one delivery.
    pub open spec fn armed(&self) -> bool {
        self.callback().armed()
    }

    /// Where the bridge stands.
    pub fn phase(&self) -> (phase: Phase)
        ensures
            phase == self.cell().phase(),
    {
        self.callback.phase()
    }

    /// Whether the bridge holds the foreign callable of its handle.
    pub fn has_closure(&self) -> (b: bool)
        ensures
            b == (self.handle() is Some),
    {
        self.callback.has_handle()
    }

    /// Another owning reference to the foreign callable. There is one to share
    /// from the moment it is attached until the handle fires.
    pub fn get_closure(&self) -> (closure: Rc<C>)
        requires
            self.handle() is Some,
        ensures
            Some(closure) == self.handle(),
    {
        self.callback.as_closure()
    }
}

impl<V, M: Mapping<V>, H0, H1, H2, H3, H4, H5, H6> CallbackWrapper<
    V,
    M,
    ClosureKind<H0, H1, H2, H3, H4, H5, H6>,
> {
    /// The bridge underneath is well formed, and the foreign callable, once
    /// there, advertises the number of arguments that the mapping takes.
    pub open spec fn wf(&self) -> bool {
        &&& self.callback().wf()
        &&& self.handle() is Some ==> self.handle().unwrap().spec_arity()
            == self.mapping().unwrap().spec_arity()
    }

    /// Whether the handle may be called with `args` now.
    pub open spec fn can_fire(&self, args: Seq<V>) -> bool {
        self.callback().can_fire(args)
    }

    /// That `after` is this bridge once its handle has been called with
    /// `args`: the mapping has given an outcome for them, that outcome has
    /// been delivered, and nothing of the handle is left.
    pub open spec fn fired(&self, args: Seq<V>, after: Self) -> bool {
        self.callback().fired(args, after.callback())
    }

    /// An armed bridge whose handle maps its arguments by `cb`, with no
    /// foreign callable yet.
    pub fn from(cb: M) -> (wrapper: Self)
        ensures
            wrapper.wf(),
            wrapper.cell() == CellState::<V>::empty(),
            wrapper.mapping() == Some(cb),
            wrapper.handle() is None,
    {
        CallbackWrapper { callback: Callback::new(cb) }
    }

    /// Whether a handle of the bridge may still fire.
    pub fn is_armed(&self) -> (b: bool)
        requires
            self.wf(),
        ensures
            b == self.armed(),
    {
        self.callback.is_armed()
    }

    /// The number of values the handle is called with.
    pub fn arity(&self) -> (n: usize)
        requires
            self.wf(),
            self.armed(),
        ensures
            n == self.mapping().unwrap().spec_arity(),
    {
        self.callback.arity()
    }

    /// Whether the bridge takes `closure` for its handle now: it is armed, and
    /// the callable advertises as many arguments as the mapping takes.
    pub open spec fn fits(&self, closure: ClosureKind<H0, H1, H2, H3, H4, H5, H6>) -> bool {
        &&& self.armed()
        &&& self.mapping() is Some
        &&& closure.spec_arity() == self.mapping().unwrap().spec_arity()
    }

    /// Gives the bridge the foreign callable that stands for its handle, in
    /// place of any earlier one, and says whether the bridge took it. The
    /// bridge takes a callable that fits and keeps it alive until the handle
    /// fires. It lets any other go at once and stays as it is.
    pub fn attach(
        &mut self,
        closure: Rc<ClosureKind<H0, H1, H2, H3, H4, H5, H6>>,
    ) -> (attached: bool)
        requires
            old(self).wf(),
        ensures
            final(self).wf(),
            attached == old(self).fits(*closure),
            final(self).cell() == old(self).cell(),
            final(self).mapping() == old(self).mapping(),
            final(self).handle() == (if attached {
                Some(closure)
            } else {
                old(self).handle()
            }),
    {
        if self.callback.is_armed() && closure.arity() == self.callback.arity() {
            self.callback.attach(closure)
        } else {
            false
        }
    }

    /// Delivers `val` as it is and releases the handle, in one step. Hands
    /// back the wake handle of the waiting task, for
    /// [`crate::outcome::notify`].
    ///
    /// Only an armed bridge takes a delivery.
    pub fn finish(&mut self, val: Result<V, V>) -> (task: Option<Waker>)
        requires
            old(self).wf(),
            old(self).armed(),
        ensures
            final(self).wf(),
            final(self).cell() == old(self).cell().deliver(val),
            final(self).mapping() is None,
            final(self).handle() is None,
            task == old(self).cell().waiter,
    {
        self.callback.finish(val)
    }

    /// The handle is called with `args`: applies the mapping, delivers what it
    /// gives and releases the handle. Hands back the wake handle of the
    /// waiting task, for [`crate::outcome::notify`].
    ///
    /// Only the handle of an armed bridge fires. Firing disarms the bridge, so
    /// no handle fires twice.
    pub fn fire(&mut self, args: Vec<V>) -> (task: Option<Waker>)
        requires
            old(self).wf(),
            old(self).can_fire(args@),
        ensures
            final(self).wf(),
            old(self).fired(args@, *final(self)),
            task == old(self).cell().waiter,
    {
        self.callback.fire(args)
    }

    /// Takes the outcome if it has been delivered. Otherwise keeps `waker`,
    /// in place of any earlier one, and reports `Pending`. The handle is not
    /// touched.
    ///
    /// A bridge whose outcome has been taken is spent and is not polled again.
    pub fn poll(&mut self, waker: Waker) -> (polled: Polled<V>)
        requires
            old(self).wf(),
            old(self).cell().phase() != Phase::Observed,
        ensures
            final(self).wf(),
            final(self).cell() == old(self).cell().poll(waker),
            polled == old(self).cell().poll_result(),
            final(self).mapping() == old(self).mapping(),
            final(self).handle() == old(self).handle(),
    {
        self.callback.poll(waker)
    }
}

impl<V: Boundary, F0, F1, F2, F3, F4, F5, F6, H0, H1, H2, H3, H4, H5, H6> CallbackWrapper<
    V,
    CallbackKind<F0, F1, F2, F3, F4, F5, F6>,
    ClosureKind<H0, H1, H2, H3, H4, H5, H6>,
> where
    F0: FnOnce() -> Result<V, V>,
    F1: FnOnce(V) -> Result<V, V>,
    F2: FnOnce(V, V) -> Result<V, V>,
    F3: FnOnce(V, V, V) -> Result<V, V>,
    F4: FnOnce(V, V, V, V) -> Result<V, V>,
    F5: FnOnce(V, V, V, V, V) -> Result<V, V>,
    F6: FnOnce(V, V, V, V, V, V) -> Result<V, V>,
{
    /// A bridge with a handle of one argument, whose outcome is always `Ok` of
    /// that argument.
    pub fn new() -> (wrapper: Self)
        ensures
            wrapper.wf(),
            wrapper.cell() == CellState::<V>::empty(),
            wrapper.mapping() == Some(CallbackKind::<F0, F1, F2, F3, F4, F5, F6>::Identity),
            wrapper.handle() is None,
    {
        CallbackWrapper::from(CallbackKind::Identity)
    }

    /// A bridge with a handle of two arguments, `(err, data)`: the outcome is
    /// `Ok(data)` when `err` is the null or the undefined sentinel, and
    /// `Err(err)` otherwise.
    pub fn new_node() -> (wrapper: Self)
        ensures
            wrapper.wf(),
            wrapper.cell() == CellState::<V>::empty(),
            wrapper.mapping() == Some(CallbackKind::<F0, F1, F2, F3, F4, F5, F6>::NodeStyle),
            wrapper.handle() is None,
    {
        CallbackWrapper::from(CallbackKind::NodeStyle)
    }
}

impl<
    V,
    M,
    T0: ?Sized,
    T1: ?Sized,
    T2: ?Sized,
    T3: ?Sized,
    T4: ?Sized,
    T5: ?Sized,
    T6: ?Sized,
> CallbackWrapper<
    V,
    M,
    ClosureKind<
        Closure<T0>,
        Closure<T1>,
        Closure<T2>,
        Closure<T3>,
        Closure<T4>,
        Closure<T5>,
        Closure<T6>,
    >,
> {
    /// The foreign callable as a plain JavaScript function, whatever its
    /// arity: the conversion of the closure that the bridge holds.
    pub fn get_function(&self) -> (function: Function)
        requires
            self.handle() is Some,
        ensures
            (*self.handle().unwrap()).converts_to(function),
    {
        let closure = self.callback.as_closure();
        closure.to_function()
    }
}

/// After its handle has fired, a bridge holds nothing of the handle and
/// cannot fire again, and the next poll is answered `Ready` with an outcome
/// that the mapping gives for the arguments of that one call.
pub proof fn lemma_wrapper_fire_then_poll<V, M: Mapping<V>, H0, H1, H2, H3, H4, H5, H6>(
    before: CallbackWrapper<V, M, ClosureKind<H0, H1, H2, H3, H4, H5, H6>>,
    args: Seq<V>,
    after: CallbackWrapper<V, M, ClosureKind<H0, H1, H2, H3, H4, H5, H6>>,
)
    requires
        before.wf(),
        before.can_fire(args),
        before.fired(args, after),
    ensures
        after.cell().phase() == Phase::Fired,
        after.handle() is None,
        forall|more: Seq<V>| !after.can_fire(more),
        exists|out: Result<V, V>|
            before.mapping().unwrap().maps(args, out) && after.cell().poll_result()
                == Polled::Ready(out),
{
    let out = after.cell().outcome.unwrap();
    assert(before.mapping().unwrap().maps(args, out) && after.cell().poll_result()
        == Polled::Ready(out));
}

} // verus!
