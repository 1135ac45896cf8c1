//! The bridge with any number of handles, handed out one by one.

use crate::boundary::Boundary;
use crate::callback_kind::{CallbackKind, Mapping};
use crate::closure_kind::{converts, function_of};
use crate::handle::share;
use crate::outcome::{CellState, OutcomeCell, Phase, Polled};
use js_sys::Function;
use std::rc::Rc;
use std::task::Waker;
use vstd::prelude::*;
use wasm_bindgen::closure::Closure;

verus! {

/// A bridge that hands out handles on request. Each handle has a mapping of
/// its own and is known by the number of its slot. Whichever handle fires
/// first decides the outcome, and with it every handle is released.
pub struct CallbackFuture<V, M, H> {
    handles: Vec<(M, Option<Rc<H>>)>,
    cell: OutcomeCell<V>,
}

impl<V, M, H> CallbackFuture<V, M, H> {
    /// The content of the outcome cell.
    pub closed spec fn cell(&self) -> CellState<V> {
        self.cell@
    }

    /// The live handles by slot: the mapping of each, and its foreign callable
    /// once the bridge holds one.
    pub closed spec fn slots(&self) -> Seq<(M, Option<Rc<H>>)> {
        self.handles@
    }

    /// After the delivery no handle is left.
    pub open spec fn wf(&self) -> bool {
        &&& self.cell().wf()
        &&& self.cell().delivered ==> self.slots().len() == 0
    }

    /// Whether the bridge still awaits its one delivery.
    pub open spec fn armed(&self) -> bool {
        self.cell().phase() == Phase::Armed
    }

    /// That `after` is this bridge once `val` has been delivered: the cell
    /// holds `val`, and no handle is left.
    pub open spec fn finished(&self, val: Result<V, V>, after: Self) -> bool {
        &&& after.cell() == self.cell().deliver(val)
        &&& after.slots().len() == 0
    }

    /// That `after` is this bridge once a handle that maps by `mapping` has
    /// been asked for and `slot` was the answer: an armed bridge has one more
    /// handle, in the next free slot and with no foreign callable yet; a
    /// bridge that has fired has answered `None` and is unchanged.
    pub open spec fn registered(&self, mapping: M, slot: Option<usize>, after: Self) -> bool {
        &&& after.cell() == self.cell()
        &&& self.armed() ==> slot == Some(self.slots().len() as usize) && after.slots()
            == self.slots().push((mapping, None))
        &&& !self.armed() ==> slot is None && after.slots() == self.slots()
    }

    /// An armed bridge without handles.
    pub fn new() -> (future: Self)
        ensures
            future.wf(),
            future.cell() == CellState::<V>::empty(),
            future.slots().len() == 0,
    {
        CallbackFuture { handles: Vec::new(), cell: OutcomeCell::new() }
    }

    /// Where the bridge stands.
    pub fn phase(&self) -> (phase: Phase)
        ensures
            phase == self.cell().phase(),
    {
        self.cell.phase()
    }

    /// Whether a handle of the bridge may still fire.
    pub fn is_armed(&self) -> (b: bool)
        ensures
            b == self.armed(),
    {
        !self.cell.is_delivered()
    }

    /// The number of live handles.
    pub fn len(&self) -> (n: usize)
        ensures
            n == self.slots().len(),
    {
        self.handles.len()
    }

    /// Whether `slot` is live and the bridge holds its foreign callable.
    pub fn has_closure(&self, slot: usize) -> (b: bool)
        ensures
            b == (slot < self.slots().len() && self.slots()[slot as int].1 is Some),
    {
        slot < self.handles.len() && self.handles[slot].1.is_some()
    }

    /// Adds a handle that maps by `mapping` and gives the number of its slot.
    /// A bridge that has fired hands out no more handles: it gives `None` and
    /// stays as it is.
    pub fn register(&mut self, mapping: M) -> (slot: Option<usize>)
        requires
            old(self).wf(),
        ensures
            final(self).wf(),
            old(self).registered(mapping, slot, *final(self)),
    {
        if self.cell.is_delivered() {
            None
        } else {
            let slot = self.handles.len();
            self.handles.push((mapping, None));
            Some(slot)
        }
    }

    /// Gives the bridge the foreign callable that stands for the handle in
    /// `slot`, in place of any earlier one, and says whether the bridge took
    /// it. The bridge takes it if the slot is live, and keeps it alive until a
    /// handle fires. Otherwise it lets `closure` go at once and stays as it
    /// is.
    pub fn attach(&mut self, slot: usize, closure: Rc<H>) -> (attached: bool)
        requires
            old(self).wf(),
        ensures
            final(self).wf(),
            attached == (slot < old(self).slots().len()),
            final(self).cell() == old(self).cell(),
            attached ==> final(self).slots() == old(self).slots().update(
                slot as int,
                (old(self).slots()[slot as int].0, Some(closure)),
            ),
            !attached ==> final(self).slots() == old(self).slots(),
    {
        if slot < self.handles.len() {
            let entry = self.handles.remove(slot);
            self.handles.insert(slot, (entry.0, Some(closure)));
            assert(self.handles@ =~= old(self).handles@.update(
                slot as int,
                (old(self).handles@[slot as int].0, Some(closure)),
            ));
            true
        } else {
            false
        }
    }

    /// Another owning reference to the foreign callable of the handle in
    /// `slot`.
    pub fn as_closure(&self, slot: usize) -> (closure: Rc<H>)
        requires
            slot < self.slots().len(),
            self.slots()[slot as int].1 is Some,
        ensures
            Some(closure) == self.slots()[slot as int].1,
    {
        share(self.handles[slot].1.as_ref().unwrap())
    }

    /// Delivers `val` and releases every handle, in one step. Hands back the
    /// wake handle of the waiting task, for [`crate::outcome::notify`].
    ///
    /// Only an armed bridge takes a delivery.
    pub fn finish(&mut self, val: Result<V, V>) -> (task: Option<Waker>)
        requires
            old(self).wf(),
            old(self).armed(),
        ensures
            final(self).wf(),
            old(self).finished(val, *final(self)),
            task == old(self).cell().waiter,
    {
        self.handles.clear();
        self.cell.deliver(val)
    }

    /// Takes the outcome if it has been delivered. Otherwise keeps `waker`,
    /// in place of any earlier one, and reports `Pending`. The handles are not
    /// touched.
    ///
    /// A bridge whose outcome has been taken is spent and is not polled again.
    pub fn poll(&mut self, waker: Waker) -> (polled: Polled<V>)
        requires
            old(self).wf(),
            old(self).cell().phase() != Phase::Observed,
        ensures
            final(self).wf(),
            final(self).cell() == old(self).cell().poll(waker),
            polled == old(self).cell().poll_result(),
            final(self).slots() == old(self).slots(),
    {
        self.cell.poll(waker)
    }
}

impl<V, M: Mapping<V>, H> CallbackFuture<V, M, H> {
    /// Whether the handle in `slot` may be called with `args` now.
    pub open spec fn can_fire(&self, slot: usize, args: Seq<V>) -> bool {
        &&& slot < self.slots().len()
        &&& self.slots()[slot as int].0.accepts(args)
    }

    /// That `after` is this bridge once the handle in `slot` has been called
    /// with `args`: the mapping of that handle has given an outcome for them,
    /// that outcome has been delivered, and no handle is left.
    pub open spec fn fired(&self, slot: usize, args: Seq<V>, after: Self) -> bool {
        &&& after.cell().outcome is Some
        &&& self.slots()[slot as int].0.maps(args, after.cell().outcome.unwrap())
        &&& self.finished(after.cell().outcome.unwrap(), after)
    }

    /// The number of values the handle in `slot` is called with.
    pub fn arity(&self, slot: usize) -> (n: usize)
        requires
            slot < self.slots().len(),
        ensures
            n == self.slots()[slot as int].0.spec_arity(),
    {
        self.handles[slot].0.arity()
    }

    /// The handle in `slot` is called with `args`: applies the mapping of that
    /// handle, delivers what it gives and releases every handle of the bridge.
    /// Hands back the wake handle of the waiting task, for
    /// [`crate::outcome::notify`].
    ///
    /// Only a live handle fires, and after the first has fired none is live.
    pub fn fire(&mut self, slot: usize, args: Vec<V>) -> (task: Option<Waker>)
        requires
            old(self).wf(),
            old(self).can_fire(slot, args@),
        ensures
            final(self).wf(),
            old(self).fired(slot, args@, *final(self)),
            task == old(self).cell().waiter,
    {
        let entry = self.handles.swap_remove(slot);
        self.handles.clear();
        let val = entry.0.apply(args);
        self.cell.deliver(val)
    }
}

impl<V: Boundary, F0, F1, F2, F3, F4, F5, F6, H> CallbackFuture<
    V,
    CallbackKind<F0, F1, F2, F3, F4, F5, F6>,
    H,
> {
    /// Adds a handle of no arguments that maps by `cb`. See
    /// [`Self::register`].
    pub fn get_arg0(&mut self, cb: F0) -> (slot: Option<usize>)
        requires
            old(self).wf(),
        ensures
            final(self).wf(),
            old(self).registered(
                CallbackKind::<F0, F1, F2, F3, F4, F5, F6>::Arg0(cb),
                slot,
                *final(self),
            ),
    {
        self.register(CallbackKind::Arg0(cb))
    }

    /// Adds a handle of one argument that maps by `cb`. See
    /// [`Self::register`].
    pub fn get_arg1(&mut self, cb: F1) -> (slot: Option<usize>)
        requires
            old(self).wf(),
        ensures
            final(self).wf(),
            old(self).registered(
                CallbackKind::<F0, F1, F2, F3, F4, F5, F6>::Arg1(cb),
                slot,
                *final(self),
            ),
    {
        self.register(CallbackKind::Arg1(cb))
    }

    /// Adds a handle of two arguments that maps by `cb`. See
    /// [`Self::register`].
    pub fn get_arg2(&mut self, cb: F2) -> (slot: Option<usize>)
        requires
            old(self).wf(),
        ensures
            final(self).wf(),
            old(self).registered(
                CallbackKind::<F0, F1, F2, F3, F4, F5, F6>::Arg2(cb),
                slot,
                *final(self),
            ),
    {
        self.register(CallbackKind::Arg2(cb))
    }

    /// Adds a handle of three arguments that maps by `cb`. See
    /// [`Self::register`].
    pub fn get_arg3(&mut self, cb: F3) -> (slot: Option<usize>)
        requires
            old(self).wf(),
        ensures
            final(self).wf(),
            old(self).registered(
                CallbackKind::<F0, F1, F2, F3, F4, F5, F6>::Arg3(cb),
                slot,
                *final(self),
            ),
    {
        self.register(CallbackKind::Arg3(cb))
    }

    /// Adds a handle of four arguments that maps by `cb`. See
    /// [`Self::register`].
    pub fn get_arg4(&mut self, cb: F4) -> (slot: Option<usize>)
        requires
            old(self).wf(),
        ensures
            final(self).wf(),
            old(self).registered(
                CallbackKind::<F0, F1, F2, F3, F4, F5, F6>::Arg4(cb),
                slot,
                *final(self),
            ),
    {
        self.register(CallbackKind::Arg4(cb))
    }

    /// Adds a handle of five arguments that maps by `cb`. See
    /// [`Self::register`].
    pub fn get_arg5(&mut self, cb: F5) -> (slot: Option<usize>)
        requires
            old(self).wf(),
        ensures
            final(self).wf(),
            old(self).registered(
                CallbackKind::<F0, F1, F2, F3, F4, F5, F6>::Arg5(cb),
                slot,
                *final(self),
            ),
    {
        self.register(CallbackKind::Arg5(cb))
    }

    /// Adds a handle of six arguments that maps by `cb`. See
    /// [`Self::register`].
    pub fn get_arg6(&mut self, cb: F6) -> (slot: Option<usize>)
        requires
            old(self).wf(),
        ensures
            final(self).wf(),
            old(self).registered(
                CallbackKind::<F0, F1, F2, F3, F4, F5, F6>::Arg6(cb),
                slot,
                *final(self),
            ),
    {
        self.register(CallbackKind::Arg6(cb))
    }

    /// Adds a handle of one argument whose outcome is `Ok` of that argument.
    /// See [`Self::register`].
    pub fn get(&mut self) -> (slot: Option<usize>)
        requires
            old(self).wf(),
        ensures
            final(self).wf(),
            old(self).registered(
                CallbackKind::<F0, F1, F2, F3, F4, F5, F6>::Identity,
                slot,
                *final(self),
            ),
    {
        self.register(CallbackKind::Identity)
    }

    /// Adds the resolve handle of a promise: one argument, which comes back
    /// as `Ok`. See [`Self::register`].
    pub fn get_resolve(&mut self) -> (slot: Option<usize>)
        requires
            old(self).wf(),
        ensures
            final(self).wf(),
            old(self).registered(
                CallbackKind::<F0, F1, F2, F3, F4, F5, F6>::Identity,
                slot,
                *final(self),
            ),
    {
        self.register(CallbackKind::Identity)
    }

    /// Adds the reject handle of a promise: one argument, which comes back as
    /// `Err`. See [`Self::register`].
    pub fn get_reject(&mut self) -> (slot: Option<usize>)
        requires
            old(self).wf(),
        ensures
            final(self).wf(),
            old(self).registered(
                CallbackKind::<F0, F1, F2, F3, F4, F5, F6>::Reject,
                slot,
                *final(self),
            ),
    {
        self.register(CallbackKind::Reject)
    }

    /// Adds a handle of two arguments, `(err, data)`: the outcome is `Ok(data)`
    /// when `err` is the null or the undefined sentinel, and `Err(err)`
    /// otherwise. See [`Self::register`].
    pub fn get_node(&mut self) -> (slot: Option<usize>)
        requires
            old(self).wf(),
        ensures
            final(self).wf(),
            old(self).registered(
                CallbackKind::<F0, F1, F2, F3, F4, F5, F6>::NodeStyle,
                slot,
                *final(self),
            ),
    {
        self.register(CallbackKind::NodeStyle)
    }
}

impl<V, M, T: ?Sized> CallbackFuture<V, M, Closure<T>> {
    /// The foreign callable of the handle in `slot` as a plain JavaScript
    /// function: the conversion of the closure of that slot.
    pub fn as_function(&self, slot: usize) -> (function: Function)
        requires
            slot < self.slots().len(),
            self.slots()[slot as int].1 is Some,
        ensures
            converts(&*self.slots()[slot as int].1.unwrap(), function),
    {
        let closure = share(self.handles[slot].1.as_ref().unwrap());
        function_of(&closure)
    }
}

/// After one handle has fired no handle is left, so none can fire, and the
/// next poll is answered `Ready` with an outcome that the mapping of the
/// handle that fired gives for the arguments of that one call.
pub proof fn lemma_any_handle_settles<V, M: Mapping<V>, H>(
    before: CallbackFuture<V, M, H>,
    slot: usize,
    args: Seq<V>,
    after: CallbackFuture<V, M, H>,
)
    requires
        before.wf(),
        before.can_fire(slot, args),
        before.fired(slot, args, after),
    ensures
        after.cell().phase() == Phase::Fired,
        forall|other: usize, more: Seq<V>| !after.can_fire(other, more),
        exists|out: Result<V, V>| #[trigger]
            before.slots()[slot as int].0.maps(args, out) && after.cell().poll_result()
                == Polled::Ready(out),
{
    let out = after.cell().outcome.unwrap();
    assert(before.slots()[slot as int].0.maps(args, out) && after.cell().poll_result()
        == Polled::Ready(out));
}

} // verus!
