//! The bridge with two handles, of which the first to fire decides.

use crate::boundary::Boundary;
use crate::callback_kind::{CallbackKind, Mapping};
use crate::closure_kind::{converts, function_of};
use crate::handle::HandleSlot;
use crate::outcome::{CellState, OutcomeCell, Phase, Polled};
use js_sys::Function;
use std::rc::Rc;
use std::task::Waker;
use vstd::prelude::*;
use wasm_bindgen::closure::Closure;

verus! {

/// One of the two handles of a pair. By custom the left one resolves and the
/// right one rejects.
#[derive(Clone, Copy, Debug, PartialEq, Eq, Structural)]
pub enum Side {
    Left,
    Right,
}

/// The state that the awaiting task and the two handles of a pair share. The
/// two handles live and die together: they sit in one slot.
pub struct CallbackPairInner<V, A, B, HA, HB> {
    slot: HandleSlot<(A, B), (HA, HB)>,
    cell: OutcomeCell<V>,
}

impl<V, A, B, HA, HB> CallbackPairInner<V, A, B, HA, HB> {
    /// The content of the outcome cell.
    pub closed spec fn cell(&self) -> CellState<V> {
        self.cell@
    }

    /// The mappings of the left and of the right handle, while they are live.
    pub closed spec fn mappings(&self) -> Option<(A, B)> {
        self.slot.mapping()
    }

    /// The two foreign callables, while the bridge holds them.
    pub closed spec fn handles(&self) -> Option<Rc<(HA, HB)>> {
        self.slot.foreign()
    }

    /// Both handles are live exactly until the delivery, and a bridge whose
    /// handles are gone holds no foreign callable either.
    pub open spec fn wf(&self) -> bool {
        &&& self.cell().wf()
        &&& self.mappings() is Some <==> !self.cell().delivered
        &&& self.mappings() is None ==> self.handles() is None
    }

    /// Whether the bridge still awaits its one delivery.
    pub open spec fn armed(&self) -> bool {
        self.cell().phase() == Phase::Armed
    }

    /// That `after` is this bridge once `val` has been delivered: the cell
    /// holds `val`, and nothing of either handle is left.
    pub open spec fn finished(&self, val: Result<V, V>, after: Self) -> bool {
        &&& after.cell() == self.cell().deliver(val)
        &&& after.mappings() is None
        &&& after.handles() is None
    }

    /// An armed bridge whose left handle maps by `left` and whose right handle
    /// maps by `right`, with no foreign callables yet.
    pub fn new(left: A, right: B) -> (inner: Self)
        ensures
            inner.wf(),
            inner.cell() == CellState::<V>::empty(),
            inner.mappings() == Some((left, right)),
            inner.handles() is None,
    {
        CallbackPairInner { slot: HandleSlot::new((left, right)), cell: OutcomeCell::new() }
    }

    /// Where the bridge stands.
    pub fn phase(&self) -> (phase: Phase)
        ensures
            phase == self.cell().phase(),
    {
        self.cell.phase()
    }

    /// Whether a handle of the bridge may still fire.
    pub fn is_armed(&self) -> (b: bool)
        requires
            self.wf(),
        ensures
            b == self.armed(),
    {
        self.slot.is_live()
    }

    /// Delivers `val` and releases both handles, in one step. Hands back the
    /// wake handle of the waiting task, for [`crate::outcome::notify`].
    ///
    /// Only an armed bridge takes a delivery.
    pub fn finish(&mut self, val: Result<V, V>) -> (task: Option<Waker>)
        requires
            old(self).wf(),
            old(self).armed(),
        ensures
            final(self).wf(),
            old(self).finished(val, *final(self)),
            task == old(self).cell().waiter,
    {
        let _ = self.slot.release();
        self.cell.deliver(val)
    }
}

/// A bridge with two handles: what the awaiting task holds.
pub struct CallbackPair<V, A, B, HA, HB> {
    inner: CallbackPairInner<V, A, B, HA, HB>,
}

impl<V, A, B, HA, HB> CallbackPair<V, A, B, HA, HB> {
    /// The state behind the bridge.
    pub closed spec fn inner(&self) -> CallbackPairInner<V, A, B, HA, HB> {
        self.inner
    }

    /// The shared state is well formed.
    pub open spec fn wf(&self) -> bool {
        self.inner().wf()
    }

    /// The content of the outcome cell.
    pub open spec fn cell(&self) -> CellState<V> {
        self.inner().cell()
    }

    /// The mappings of the left and of the right handle, while they are live.
    pub open spec fn mappings(&self) -> Option<(A, B)> {
        self.inner().mappings()
    }

    /// The two foreign callables, while the bridge holds them.
    pub open spec fn handles(&self) -> Option<Rc<(HA, HB)>> {
        self.inner().handles()
    }

    /// Whether the bridge still awaits its one delivery.
    pub open spec fn armed(&self) -> bool {
        self.inner().armed()
    }

    /// An armed bridge whose left handle maps by `left` and whose right handle
    /// maps by `right`. The two need not take the same number of arguments.
    pub fn new(left: A, right: B) -> (pair: Self)
        ensures
            pair.wf(),
            pair.cell() == CellState::<V>::empty(),
            pair.mappings() == Some((left, right)),
            pair.handles() is None,
    {
        CallbackPair { inner: CallbackPairInner::new(left, right) }
    }

    /// Where the bridge stands.
    pub fn phase(&self) -> (phase: Phase)
        ensures
            phase == self.cell().phase(),
    {
        self.inner.cell.phase()
    }

    /// Whether a handle of the bridge may still fire.
    pub fn is_armed(&self) -> (b: bool)
        requires
            self.wf(),
        ensures
            b == self.armed(),
    {
        self.inner.slot.is_live()
    }

    /// Whether the bridge holds the foreign callables of its handles.
    pub fn has_handles(&self) -> (b: bool)
        ensures
            b == (self.handles() is Some),
    {
        self.inner.slot.has_foreign()
    }

    /// Gives the bridge the two foreign callables that stand for its handles,
    /// in place of any earlier ones, and says whether the bridge took them. An
    /// armed bridge does, and keeps both alive until one of the handles fires.
    /// A bridge that has fired lets `handles` go at once.
    pub fn attach(&mut self, handles: Rc<(HA, HB)>) -> (attached: bool)
        requires
            old(self).wf(),
        ensures
            final(self).wf(),
            attached == old(self).armed(),
            final(self).cell() == old(self).cell(),
            final(self).mappings() == old(self).mappings(),
            final(self).handles() == (if attached {
                Some(handles)
            } else {
                None
            }),
    {
        self.inner.slot.attach(handles)
    }

    /// Another owning reference to the two foreign callables. There is one to
    /// share from the moment they are attached until a handle fires.
    pub fn as_closures(&self) -> (handles: Rc<(HA, HB)>)
        requires
            self.handles() is Some,
        ensures
            Some(handles) == self.handles(),
    {
        self.inner.slot.foreign_handle()
    }

    /// Takes the outcome if it has been delivered. Otherwise keeps `waker`,
    /// in place of any earlier one, and reports `Pending`. The handles are not
    /// touched.
    ///
    /// A bridge whose outcome has been taken is spent and is not polled again.
    pub fn poll(&mut self, waker: Waker) -> (polled: Polled<V>)
        requires
            old(self).wf(),
            old(self).cell().phase() != Phase::Observed,
        ensures
            final(self).wf(),
            final(self).cell() == old(self).cell().poll(waker),
            polled == old(self).cell().poll_result(),
            final(self).mappings() == old(self).mappings(),
            final(self).handles() == old(self).handles(),
    {
        self.inner.cell.poll(waker)
    }
}

impl<V, A: Mapping<V>, B: Mapping<V>, HA, HB> CallbackPair<V, A, B, HA, HB> {
    /// Whether the mapping of the handle on `side` may be applied to `args`.
    pub open spec fn accepts(&self, side: Side, args: Seq<V>) -> bool {
        match side {
            Side::Left => self.mappings().unwrap().0.accepts(args),
            Side::Right => self.mappings().unwrap().1.accepts(args),
        }
    }

    /// Whether `out` is an outcome that the mapping of the handle on `side`
    /// gives for `args`.
    pub open spec fn maps(&self, side: Side, args: Seq<V>, out: Result<V, V>) -> bool {
        match side {
            Side::Left => self.mappings().unwrap().0.maps(args, out),
            Side::Right => self.mappings().unwrap().1.maps(args, out),
        }
    }

    /// The number of values the handle on `side` takes.
    pub open spec fn spec_arity(&self, side: Side) -> nat {
        match side {
            Side::Left => self.mappings().unwrap().0.spec_arity(),
            Side::Right => self.mappings().unwrap().1.spec_arity(),
        }
    }

    /// Whether the handle on `side` may be called with `args` now.
    pub open spec fn can_fire(&self, side: Side, args: Seq<V>) -> bool {
        &&& self.armed()
        &&& self.mappings() is Some
        &&& self.accepts(side, args)
    }

    /// That `after` is this bridge once the handle on `side` has been called
    /// with `args`: the mapping of that handle has given an outcome for them,
    /// that outcome has been delivered, and nothing of either handle is left.
    pub open spec fn fired(&self, side: Side, args: Seq<V>, after: Self) -> bool {
        &&& after.cell().outcome is Some
        &&& self.maps(side, args, after.cell().outcome.unwrap())
        &&& self.inner().finished(after.cell().outcome.unwrap(), after.inner())
    }

    /// The number of values the handle on `side` is called with.
    pub fn arity(&self, side: Side) -> (n: usize)
        requires
            self.wf(),
            self.armed(),
        ensures
            n == self.spec_arity(side),
    {
        let mappings = self.inner.slot.mapping_ref();
        match side {
            Side::Left => mappings.0.arity(),
            Side::Right => mappings.1.arity(),
        }
    }

    /// The handle on `side` is called with `args`: applies the mapping of that
    /// handle, delivers what it gives and releases both handles, the one that
    /// was not called too. Hands back the wake handle of the waiting task, for
    /// [`crate::outcome::notify`].
    ///
    /// Only a handle of an armed bridge fires. Firing disarms the bridge, so
    /// the other handle never fires after this one.
    pub fn fire(&mut self, side: Side, args: Vec<V>) -> (task: Option<Waker>)
        requires
            old(self).wf(),
            old(self).can_fire(side, args@),
        ensures
            final(self).wf(),
            old(self).fired(side, args@, *final(self)),
            task == old(self).cell().waiter,
    {
        let (left, right) = self.inner.slot.release().unwrap();
        let val = match side {
            Side::Left => left.apply(args),
            Side::Right => right.apply(args),
        };
        self.inner.cell.deliver(val)
    }
}

/// The default pair is the resolve and reject of a promise: each handle takes
/// one argument, the left gives it back as `Ok`, the right as `Err`.
impl<
    V: Boundary,
    F0,
    F1,
    F2,
    F3,
    F4,
    F5,
    F6,
    G0,
    G1,
    G2,
    G3,
    G4,
    G5,
    G6,
    HA,
    HB,
> Default for CallbackPair<
    V,
    CallbackKind<F0, F1, F2, F3, F4, F5, F6>,
    CallbackKind<G0, G1, G2, G3, G4, G5, G6>,
    HA,
    HB,
> {
    fn default() -> (pair: Self)
        ensures
            pair.wf(),
            pair.cell() == CellState::<V>::empty(),
            pair.mappings() == Some(
                (
                    CallbackKind::<F0, F1, F2, F3, F4, F5, F6>::Identity,
                    CallbackKind::<G0, G1, G2, G3, G4, G5, G6>::Reject,
                ),
            ),
            pair.handles() is None,
    {
        CallbackPair::new(CallbackKind::Identity, CallbackKind::Reject)
    }
}

impl<V, A, B, TA: ?Sized, TB: ?Sized> CallbackPair<V, A, B, Closure<TA>, Closure<TB>> {
    /// The two foreign callables as plain JavaScript functions: first the
    /// conversion of the left closure, then that of the right one.
    pub fn as_functions(&self) -> (functions: (Function, Function))
        requires
            self.handles() is Some,
        ensures
            converts(&(*self.handles().unwrap()).0, functions.0),
            converts(&(*self.handles().unwrap()).1, functions.1),
    {
        let closures = self.inner.slot.foreign_handle();
        let left = function_of(&closures.0);
        let right = function_of(&closures.1);
        (left, right)
    }
}

/// Once the bridge has left `Armed` it holds nothing of either handle:
/// whoever observes one of the two callables without owning it finds it gone,
/// the one that never fired too.
pub proof fn lemma_both_released_unless_armed<V, A, B, HA, HB>(
    pair: CallbackPair<V, A, B, HA, HB>,
)
    requires
        pair.wf(),
        !pair.armed(),
    ensures
        pair.mappings() is None,
        pair.handles() is None,
{
}

/// After one handle has fired, neither handle can fire, and the next poll is
/// answered `Ready` with an outcome that the mapping of the handle that fired
/// gives for the arguments of that one call.
pub proof fn lemma_first_to_fire_decides<V, A: Mapping<V>, B: Mapping<V>, HA, HB>(
    before: CallbackPair<V, A, B, HA, HB>,
    side: Side,
    args: Seq<V>,
    after: CallbackPair<V, A, B, HA, HB>,
)
    requires
        before.wf(),
        before.can_fire(side, args),
        before.fired(side, args, after),
    ensures
        after.cell().phase() == Phase::Fired,
        after.handles() is None,
        forall|other: Side, more: Seq<V>| !after.can_fire(other, more),
        exists|out: Result<V, V>|
            before.maps(side, args, out) && after.cell().poll_result() == Polled::Ready(out),
{
    let out = after.cell().outcome.unwrap();
    assert(before.maps(side, args, out) && after.cell().poll_result() == Polled::Ready(out));
}

} // verus!
