//! The outcome cell: one result, delivered at most once, and the wake handle
//! of whoever waits for it.

use std::task::Waker;
use vstd::prelude::*;

verus! {

/// `std::task::Waker`, the wake handle that a scheduler gives to a poll. Verus
/// sees nothing inside it.
#[verifier::external_type_specification]
#[verifier::external_body]
pub struct ExWaker(std::task::Waker);

/// Trusted: calls `std::task::Waker::wake`, which asks the scheduler to poll
/// the task again. Nothing is claimed of the call.
#[verifier::external_body]
fn wake(task: Waker) {
    task.wake()
}

/// Wakes the task a delivery found waiting, if there was one.
///
/// Call it after the exclusive access to the bridge has been given up: the
/// scheduler is free to poll from inside the wake.
pub fn notify(task: Option<Waker>) {
    match task {
        Some(task) => wake(task),
        None => {},
    }
}

/// Where a bridge stands. A bridge only ever moves forward through these.
#[derive(Clone, Copy, Debug, PartialEq, Eq, Structural)]
pub enum Phase {
    /// Handles are live and no outcome has been delivered.
    Armed,
    /// An outcome has been delivered and no poll has taken it yet.
    Fired,
    /// A poll has taken the outcome.
    Observed,
}

impl Phase {
    /// The position of a phase in the order in which a bridge passes them.
    pub open spec fn rank(self) -> nat {
        match self {
            Phase::Armed => 0,
            Phase::Fired => 1,
            Phase::Observed => 2,
        }
    }
}

/// What a poll hands back.
#[derive(Debug, PartialEq, Eq)]
pub enum Polled<V> {
    /// No outcome yet; the wake handle of this poll has been kept.
    Pending,
    /// The delivered outcome.
    Ready(Result<V, V>),
}

/// The mathematical content of an outcome cell.
pub struct CellState<V> {
    pub outcome: Option<Result<V, V>>,
    pub waiter: Option<Waker>,
    pub delivered: bool,
}

impl<V> CellState<V> {
    /// An outcome is only ever present after a delivery, and a delivery
    /// leaves no wake handle behind.
    pub open spec fn wf(self) -> bool {
        &&& self.outcome is Some ==> self.delivered
        &&& self.delivered ==> self.waiter is None
    }

    /// The cell as it is made: nothing delivered, nobody waiting.
    pub open spec fn empty() -> Self {
        CellState { outcome: None, waiter: None, delivered: false }
    }

    /// Where a cell of this content stands.
    pub open spec fn phase(self) -> Phase {
        if !self.delivered {
            Phase::Armed
        } else if self.outcome is Some {
            Phase::Fired
        } else {
            Phase::Observed
        }
    }

    /// The cell after `outcome` has been delivered into it.
    pub open spec fn deliver(self, outcome: Result<V, V>) -> Self {
        CellState { outcome: Some(outcome), waiter: None, delivered: true }
    }

    /// The cell after a poll that brought `waker`.
    pub open spec fn poll(self, waker: Waker) -> Self {
        match self.outcome {
            Some(_) => CellState { outcome: None, ..self },
            None => CellState { waiter: Some(waker), ..self },
        }
    }

    /// What a poll of this cell returns.
    pub open spec fn poll_result(self) -> Polled<V> {
        match self.outcome {
            Some(outcome) => Polled::Ready(outcome),
            None => Polled::Pending,
        }
    }
}

/// Storage for the one outcome of a bridge and for the wake handle of the task
/// that awaits it.
pub struct OutcomeCell<V> {
    outcome: Option<Result<V, V>>,
    waiter: Option<Waker>,
    delivered: bool,
}

impl<V> View for OutcomeCell<V> {
    type V = CellState<V>;

    closed spec fn view(&self) -> CellState<V> {
        CellState { outcome: self.outcome, waiter: self.waiter, delivered: self.delivered }
    }
}

impl<V> OutcomeCell<V> {
    /// The content of the cell is well formed.
    pub open spec fn wf(&self) -> bool {
        self@.wf()
    }

    /// A cell that awaits its delivery.
    pub fn new() -> (cell: Self)
        ensures
            cell@ == CellState::<V>::empty(),
            cell.wf(),
    {
        OutcomeCell { outcome: None, waiter: None, delivered: false }
    }

    /// Whether an outcome has ever been delivered into this cell.
    pub fn is_delivered(&self) -> (b: bool)
        ensures
            b == self@.delivered,
    {
        self.delivered
    }

    /// Where the bridge stands.
    pub fn phase(&self) -> (phase: Phase)
        ensures
            phase == self@.phase(),
    {
        if !self.delivered {
            Phase::Armed
        } else if self.outcome.is_some() {
            Phase::Fired
        } else {
            Phase::Observed
        }
    }

    /// Stores `outcome` and hands back the wake handle of the waiting task,
    /// for the caller to pass to [`notify`]. `None` means that nobody has
    /// polled yet; the first poll will find the outcome.
    ///
    /// A cell takes one delivery in its life. A second one is a fault of the
    /// caller and is left out here.
    pub fn deliver(&mut self, outcome: Result<V, V>) -> (task: Option<Waker>)
        requires
            old(self).wf(),
            !old(self)@.delivered,
        ensures
            final(self).wf(),
            final(self)@ == old(self)@.deliver(outcome),
            task == old(self)@.waiter,
    {
        self.outcome = Some(outcome);
        self.delivered = true;
        self.waiter.take()
    }

    /// Takes the outcome if one is stored. Otherwise keeps `waker`, in place
    /// of any earlier one, and reports `Pending`.
    ///
    /// A cell whose outcome has been taken is spent: polling it again is a
    /// fault of the caller and is left out here.
    pub fn poll(&mut self, waker: Waker) -> (polled: Polled<V>)
        requires
            old(self).wf(),
            old(self)@.phase() != Phase::Observed,
        ensures
            final(self).wf(),
            final(self)@ == old(self)@.poll(waker),
            polled == old(self)@.poll_result(),
    {
        match self.outcome.take() {
            Some(outcome) => Polled::Ready(outcome),
            None => {
                self.waiter = Some(waker);
                Polled::Pending
            },
        }
    }
}

/// Before a delivery every poll is answered `Pending`, keeps the wake handle
/// it brought, and leaves the cell armed.
pub proof fn lemma_poll_while_armed<V>(cell: CellState<V>, waker: Waker)
    requires
        cell.wf(),
        cell.phase() == Phase::Armed,
    ensures
        cell.poll_result() == Polled::<V>::Pending,
        cell.poll(waker).waiter == Some(waker),
        cell.poll(waker).phase() == Phase::Armed,
        cell.poll(waker).wf(),
{
}

/// A poll, then a delivery, then a poll: the first poll is answered
/// `Pending`, the delivery finds the wake handle of that poll, and the second
/// poll is answered `Ready` with exactly the delivered outcome.
pub proof fn lemma_pending_then_ready<V>(
    cell: CellState<V>,
    first: Waker,
    outcome: Result<V, V>,
    second: Waker,
)
    requires
        cell.wf(),
        cell.phase() == Phase::Armed,
    ensures
        cell.poll_result() == Polled::<V>::Pending,
        cell.poll(first).waiter == Some(first),
        cell.poll(first).deliver(outcome).poll_result() == Polled::Ready(outcome),
        cell.poll(first).deliver(outcome).poll(second).phase() == Phase::Observed,
{
}

/// A delivery that nobody has polled for is found by the first poll.
pub proof fn lemma_deliver_then_poll<V>(cell: CellState<V>, outcome: Result<V, V>, waker: Waker)
    requires
        cell.wf(),
        cell.phase() == Phase::Armed,
    ensures
        cell.deliver(outcome).phase() == Phase::Fired,
        cell.deliver(outcome).poll_result() == Polled::Ready(outcome),
        cell.deliver(outcome).poll(waker).phase() == Phase::Observed,
{
}

/// A cell never returns to an earlier phase, and once it has left `Armed`
/// nothing brings it back: the condition under which a delivery is taken is
/// met at most once in the life of a cell.
pub proof fn lemma_phase_only_advances<V>(cell: CellState<V>, outcome: Result<V, V>, waker: Waker)
    requires
        cell.wf(),
    ensures
        cell.phase().rank() <= cell.poll(waker).phase().rank(),
        cell.phase() == Phase::Armed ==> cell.phase().rank() < cell.deliver(outcome).phase().rank(),
        cell.deliver(outcome).delivered,
        cell.delivered ==> cell.poll(waker).delivered,
{
}

} // verus!
